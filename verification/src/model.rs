//! The records that pass between front end, shell and backend.

use vstd::prelude::*;
use crate::number::Float64;

verus! {

/// What the front end asks a prediction for: four measurements and the
/// activity that is planned.
#[derive(Debug)]
pub struct PredictionRequest {
    pub temperature: Float64,
    pub humidity: Float64,
    pub wind_speed: Float64,
    pub pressure: Float64,
    pub activity: String,
}

/// The backend's five scores. Nothing ties them to one another.
#[derive(Clone, Copy, Debug)]
pub struct WeatherPrediction {
    pub very_hot: Float64,
    pub very_cold: Float64,
    pub very_windy: Float64,
    pub very_wet: Float64,
    pub very_uncomfortable: Float64,
}

/// The backend's answer to a prediction request.
#[derive(Debug)]
pub struct ApiResponse {
    pub prediction: WeatherPrediction,
    pub activity_risk: String,
    pub recommendation: String,
    pub timestamp: String,
}

} // verus!
