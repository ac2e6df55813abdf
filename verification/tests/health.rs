use weather_proxy::health::{after_send, check_backend_health};
use weather_proxy::prediction;
use weather_proxy::status::HttpStatus;
use weather_proxy::wire::{Method, HEALTH_URL};

fn answered(code: u16) -> Result<HttpStatus, String> {
    Ok(HttpStatus::from_u16(code).expect("a three-digit code"))
}

#[test]
fn health_url_is_the_local_backend() {
    assert_eq!(HEALTH_URL, "http://localhost:8000/health");
}

#[test]
fn probe_is_a_get_without_a_body() {
    let call = check_backend_health();
    assert!(matches!(call.method, Method::Get));
    assert_eq!(call.url, "http://localhost:8000/health");
    assert!(call.body.is_none());
}

#[test]
fn status_200_is_healthy() {
    assert_eq!(after_send(answered(200)), Ok(String::from("Backend is running")));
}

#[test]
fn every_status_in_the_two_hundreds_is_healthy() {
    for code in 200u16..=299 {
        assert_eq!(after_send(answered(code)), Ok(String::from("Backend is running")));
    }
}

#[test]
fn status_503_is_named_in_the_error() {
    let text = after_send(answered(503)).expect_err("503 is no success");
    assert!(text.contains("503"));
    assert_eq!(text, "Backend returned status: 503 Service Unavailable");
}

#[test]
fn status_404_means_an_unhealthy_backend() {
    assert_eq!(
        after_send(answered(404)),
        Err(String::from("Backend returned status: 404 Not Found"))
    );
}

#[test]
fn every_other_status_is_unhealthy_and_named() {
    for code in (100u16..200).chain(300..=999) {
        let text = after_send(answered(code)).expect_err("no success");
        let head = format!("Backend returned status: {} ", code);
        assert!(text.starts_with(&head), "code {}: {}", code, text);
    }
}

#[test]
fn unreachable_backend_fails_the_health_check() {
    assert_eq!(
        after_send(Err(String::from("connection refused"))),
        Err(String::from("Cannot connect to backend: connection refused"))
    );
}

#[test]
fn connect_failure_with_an_empty_description() {
    assert_eq!(after_send(Err(String::new())), Err(String::from("Cannot connect to backend: ")));
}

#[test]
fn unreachable_backend_fails_both_commands() {
    let detail = "dns error: failed to lookup address information";
    let health = after_send(Err(String::from(detail)));
    let predict = prediction::after_send(Err(String::from(detail)));
    assert_eq!(health, Err(format!("Cannot connect to backend: {}", detail)));
    match predict {
        prediction::AfterSend::Fail(text) => {
            assert_eq!(text, format!("Failed to send request: {}", detail))
        }
        prediction::AfterSend::DecodeBody(_) => panic!("no response, yet a body was asked for"),
    }
}

#[test]
fn interleaved_commands_do_not_touch_one_another() {
    let alone_health = after_send(answered(503));
    let alone_predict = match prediction::after_send(answered(500)) {
        prediction::AfterSend::Fail(text) => text,
        prediction::AfterSend::DecodeBody(_) => panic!("status 500 asked for the body"),
    };

    let probe = check_backend_health();
    let call = prediction::get_weather_prediction(
        weather_proxy::number::Float64::from_bits(1),
        weather_proxy::number::Float64::from_bits(2),
        weather_proxy::number::Float64::from_bits(3),
        weather_proxy::number::Float64::from_bits(4),
        String::from("sailing"),
    );
    let mixed_predict = prediction::after_send(answered(500));
    let mixed_health = after_send(answered(503));
    let healthy = after_send(answered(200));

    assert_eq!(probe.url, HEALTH_URL);
    assert_eq!(call.body.expect("a body").activity, "sailing");
    assert_eq!(mixed_health, alone_health);
    assert_eq!(healthy, Ok(String::from("Backend is running")));
    match mixed_predict {
        prediction::AfterSend::Fail(text) => assert_eq!(text, alone_predict),
        prediction::AfterSend::DecodeBody(_) => panic!("status 500 asked for the body"),
    }
}
