//! Text as the contracts see it: sequences of characters.

use vstd::prelude::*;

verus! {

/// The character that writes the decimal digit `d`.
pub open spec fn digit(d: nat) -> char
    recommends
        d < 10,
{
    if d == 0 {
        '0'
    } else if d == 1 {
        '1'
    } else if d == 2 {
        '2'
    } else if d == 3 {
        '3'
    } else if d == 4 {
        '4'
    } else if d == 5 {
        '5'
    } else if d == 6 {
        '6'
    } else if d == 7 {
        '7'
    } else if d == 8 {
        '8'
    } else {
        '9'
    }
}

/// `n` written in decimal: most significant digit first, no sign, no leading
/// zero, and `0` as a single digit.
pub open spec fn decimal(n: nat) -> Seq<char>
    decreases n,
{
    if n < 10 {
        seq![digit(n)]
    } else {
        decimal(n / 10).push(digit(n % 10))
    }
}

/// `needle` occurs in `hay` as a run of consecutive characters.
pub open spec fn occurs_in(needle: Seq<char>, hay: Seq<char>) -> bool {
    exists|at: int|
        0 <= at && at + needle.len() <= hay.len() && #[trigger] hay.subrange(
            at,
            at + needle.len(),
        ) == needle
}

/// A number of three digits is written as exactly those three digits.
pub proof fn lemma_decimal_three_digits(n: nat)
    requires
        100 <= n <= 999,
    ensures
        decimal(n) == seq![digit(n / 100), digit((n / 10) % 10), digit(n % 10)],
{
    reveal_with_fuel(decimal, 3);
    assert(decimal(n) =~= seq![digit(n / 100), digit((n / 10) % 10), digit(n % 10)]);
}

/// A text that is put together from a head, a middle and a tail holds the
/// middle.
pub proof fn lemma_middle_occurs(head: Seq<char>, middle: Seq<char>, tail: Seq<char>)
    ensures
        occurs_in(middle, head + middle + tail),
{
    let whole = head + middle + tail;
    let at = head.len() as int;
    assert(whole.subrange(at, at + middle.len()) =~= middle);
}

} // verus!
