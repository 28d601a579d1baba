//! What only outside crates can supply: the clock, fresh random identifiers and URL syntax.
use crate::text::is_digit;
use vstd::prelude::*;

verus! {

/// Whether `url::Url::parse` accepts the text as an absolute URL.
pub uninterp spec fn is_valid_url(s: Seq<char>) -> bool;

/// Relies on `url::Url::parse`: whether it accepts a text depends on the text alone.
#[verifier::external_body]
pub(crate) fn url_parses(s: &str) -> (r: bool)
    ensures
        r == is_valid_url(s@),
{
    url::Url::parse(s).is_ok()
}

/// Relies on `std::time::SystemTime::now` and its `duration_since(UNIX_EPOCH)`: the current
/// time in milliseconds since the Unix epoch, or none for a clock that reads before the
/// epoch, which `duration_since` reports as an error rather than a panic.
#[verifier::external_body]
pub(crate) fn millis_since_epoch() -> Option<u128> {
    std::time::SystemTime::now().duration_since(std::time::UNIX_EPOCH).ok().map(|d| d.as_millis())
}

/// The current time in milliseconds since the Unix epoch, when the clock reads a time
/// between the epoch and the largest `i64`.
pub fn unix_now_millis() -> (r: Option<i64>)
    ensures
        r matches Some(t) ==> t >= 0,
{
    match millis_since_epoch() {
        Some(ms) => if ms <= 0x7fff_ffff_ffff_ffff {
            Some(ms as i64)
        } else {
            None
        },
        None => None,
    }
}

/// A lowercase hexadecimal digit.
pub open spec fn is_lower_hex(c: char) -> bool {
    is_digit(c) || c == 'a' || c == 'b' || c == 'c' || c == 'd' || c == 'e' || c == 'f'
}

/// The hyphenated text of a random (version 4) UUID: 36 characters, hyphens at 8, 13, 18
/// and 23, lowercase hexadecimal digits elsewhere, the version digit `4` at 14 and one of
/// `8`, `9`, `a`, `b` at 19.
pub open spec fn is_v4_uuid_text(s: Seq<char>) -> bool {
    &&& s.len() == 36
    &&& forall|i: int|
        0 <= i < 36 ==> if i == 8 || i == 13 || i == 18 || i == 23 {
            s[i] == '-'
        } else {
            is_lower_hex(#[trigger] s[i])
        }
    &&& s[14] == '4'
    &&& (s[19] == '8' || s[19] == '9' || s[19] == 'a' || s[19] == 'b')
}

/// Relies on `uuid::Uuid::new_v4`, which sets the version and variant bits, and on the
/// `Display` of its hyphenated form, which writes lowercase hexadecimal digits and hyphens.
/// It panics only when the operating system has no random bytes to give.
#[verifier::external_body]
pub(crate) fn fresh_uuid() -> (r: String)
    ensures
        is_v4_uuid_text(r@),
{
    uuid::Uuid::new_v4().hyphenated().to_string()
}

/// Whole seconds of a time given in milliseconds, rounded down.
pub fn millis_to_secs(ms: i64) -> (r: i64)
    ensures
        r as int == (ms as int) / 1000,
{
    if ms >= 0 {
        ms / 1000
    } else {
        let m: i64 = -1 - ms;
        let q = m / 1000;
        assert((ms as int) / 1000 == -1 - (m as int) / 1000) by (nonlinear_arith)
            requires
                m == -1 - ms,
                ms < 0,
        ;
        -1 - q
    }
}

} // verus!
