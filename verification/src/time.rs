//! Durations as the library reasons about them, and the HTTP-date form of
//! a `Retry-After` header.

use std::time::Duration;
use std::time::SystemTime;
use vstd::prelude::*;

verus! {

#[verifier::external_type_specification]
#[verifier::external_body]
pub struct ExSystemTime(SystemTime);

/// `Duration::as_nanos`: the length of a duration in nanoseconds.
pub uninterp spec fn duration_nanos(d: Duration) -> nat;

/// `Duration`'s `Debug` text (such as `600s` or `1.5s`).
pub uninterp spec fn duration_debug_text(d: Duration) -> Seq<char>;

/// `httpdate::parse_http_date`: the instant an HTTP-date denotes, if the
/// text is one.
pub uninterp spec fn http_date(raw: Seq<char>) -> Option<SystemTime>;

/// `SystemTime::duration_since`: how far `later` lies after `earlier`, or
/// `None` when it lies before.
pub uninterp spec fn time_since(later: SystemTime, earlier: SystemTime) -> Option<Duration>;

pub assume_specification[ core::time::Duration::from_secs ](secs: u64) -> (d: Duration)
    ensures
        duration_nanos(d) == secs * 1_000_000_000,
;

/// `Duration::as_nanos`.
#[verifier::external_body]
pub(crate) fn nanos_of(d: &Duration) -> (n: u128)
    ensures
        n == duration_nanos(*d),
{
    d.as_nanos()
}

/// `Duration`'s `Debug` rendering, through `format!`.
#[verifier::external_body]
pub(crate) fn duration_debug(d: &Duration) -> (s: String)
    ensures
        s@ == duration_debug_text(*d),
{
    format!("{:?}", d)
}

/// `httpdate::parse_http_date`, with the error dropped.
#[verifier::external_body]
fn parse_http_date(raw: &str) -> (res: Option<SystemTime>)
    ensures
        res == http_date(raw@),
{
    match httpdate::parse_http_date(raw) {
        Ok(t) => Some(t),
        Err(_) => None,
    }
}

/// `SystemTime::now`. Nothing is claimed of the clock's reading.
#[verifier::external_body]
fn system_now() -> SystemTime {
    SystemTime::now()
}

/// `SystemTime::duration_since`, with the error dropped.
#[verifier::external_body]
fn duration_since(later: &SystemTime, earlier: &SystemTime) -> (res: Option<Duration>)
    ensures
        res == time_since(*later, *earlier),
{
    match later.duration_since(*earlier) {
        Ok(d) => Some(d),
        Err(_) => None,
    }
}

/// The wait until `when`, seen at clock reading `now`: the time between
/// them, or zero once `when` has passed.
pub open spec fn wait_until(when: SystemTime, now: SystemTime, d: Duration) -> bool {
    match time_since(when, now) {
        Some(x) => d == x,
        None => duration_nanos(d) == 0,
    }
}

/// The wait until `when` at clock reading `now`: `when - now`, or zero when
/// `when` is not after `now`.
pub fn retry_wait(when: &SystemTime, now: &SystemTime) -> (d: Duration)
    ensures
        wait_until(*when, *now, d),
{
    match duration_since(when, now) {
        Some(delta) => delta,
        None => Duration::from_secs(0),
    }
}

/// The wait a `Retry-After` HTTP-date asks for: the time from the clock
/// reading taken during the call until the date, or zero once the date has
/// passed; `None` when the text is not an HTTP-date. Which reading the
/// clock gives is not known here, so the wait is stated for some reading.
pub fn retry_after_from_http_date(raw: &str) -> (res: Option<Duration>)
    ensures
        res is Some <==> http_date(raw@) is Some,
        res is Some ==> exists|now: SystemTime| #[trigger] wait_until(http_date(raw@)->0, now, res->0),
{
    match parse_http_date(raw) {
        None => None,
        Some(when) => {
            let now = system_now();
            let d = retry_wait(&when, &now);
            let res = Some(d);
            assert(wait_until(http_date(raw@)->0, now, res->0));
            res
        },
    }
}

} // verus!
