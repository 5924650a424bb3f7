//! The wall clock, the monotonic clock, and decimal numbers.
use vstd::prelude::*;

verus! {

/// Reads the system clock: milliseconds since the Unix epoch, or 0 when the clock
/// is set before the epoch. Nothing is promised of the value, which depends on the machine.
#[verifier::external_body]
pub(crate) fn unix_millis() -> (r: u64) {
    match std::time::SystemTime::now().duration_since(std::time::UNIX_EPOCH) {
        Ok(d) => d.as_millis() as u64,
        Err(_) => 0,
    }
}

/// A reading of the monotonic clock, as `std::time::Instant` holds it.
#[verifier::external_type_specification]
#[verifier::external_body]
pub struct ExInstant(std::time::Instant);

/// Calls `Instant::now`: a reading of the monotonic clock. Nothing is promised
/// of it, which depends on the machine and the moment.
#[verifier::external_body]
pub(crate) fn instant_now() -> (r: std::time::Instant) {
    std::time::Instant::now()
}

/// Calls `Instant::elapsed`: the whole milliseconds since `t` on the monotonic
/// clock (zero when none passed). Nothing is promised of the value, which
/// depends on the moment of the call.
#[verifier::external_body]
pub(crate) fn millis_since(t: &std::time::Instant) -> (r: u64) {
    t.elapsed().as_millis() as u64
}

/// The decimal digit for `d`.
pub open spec fn digit_char(d: nat) -> char {
    if d == 0 {
        '0'
    } else if d == 1 {
        '1'
    } else if d == 2 {
        '2'
    } else if d == 3 {
        '3'
    } else if d == 4 {
        '4'
    } else if d == 5 {
        '5'
    } else if d == 6 {
        '6'
    } else if d == 7 {
        '7'
    } else if d == 8 {
        '8'
    } else {
        '9'
    }
}

/// The decimal representation of `n`, as `to_string` writes it.
pub open spec fn decimal(n: nat) -> Seq<char>
    decreases n,
{
    if n < 10 {
        seq![digit_char(n)]
    } else {
        decimal(n / 10).push(digit_char(n % 10))
    }
}

fn digit(d: u64) -> (c: char)
    requires
        d < 10,
    ensures
        c == digit_char(d as nat),
{
    if d == 0 {
        '0'
    } else if d == 1 {
        '1'
    } else if d == 2 {
        '2'
    } else if d == 3 {
        '3'
    } else if d == 4 {
        '4'
    } else if d == 5 {
        '5'
    } else if d == 6 {
        '6'
    } else if d == 7 {
        '7'
    } else if d == 8 {
        '8'
    } else {
        '9'
    }
}

fn decimal_chars(n: u64) -> (r: Vec<char>)
    ensures
        r@ == decimal(n as nat),
    decreases n,
{
    if n < 10 {
        let r = vec![digit(n)];
        assert(r@ =~= seq![digit_char(n as nat)]);
        r
    } else {
        let mut r = decimal_chars(n / 10);
        r.push(digit(n % 10));
        r
    }
}

/// The decimal representation of `n`.
pub fn to_decimal(n: u64) -> (r: String)
    ensures
        r@ == decimal(n as nat),
{
    let v = decimal_chars(n);
    crate::utils::text::string_from_chars(&v)
}

/// The current time as whole seconds since the Unix epoch, in decimal.
pub fn now_timestamp() -> (r: String)
    ensures
        exists|secs: nat| r@ == #[trigger] decimal(secs),
{
    let ms = unix_millis();
    let r = to_decimal(ms / 1000);
    assert(r@ == decimal((ms / 1000) as nat));
    r
}

} // verus!
