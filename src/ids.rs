//! Identifiers and timestamps: UUIDs through the `uuid` crate, the clock
//! through `chrono`.

use vstd::arithmetic::power2::pow2;
use vstd::prelude::*;

verus! {

/// The UUID that a string spells, if it spells one.
pub uninterp spec fn uuid_of(s: Seq<char>) -> Option<u128>;

/// The `k`-th hexadecimal digit of `v`, counted from the most significant.
pub open spec fn uuid_nibble(v: u128, k: int) -> int {
    (v as int / pow2((4 * (31 - k)) as nat) as int) % 16
}

/// Which hexadecimal digit of a UUID stands at position `i` of its text form.
pub open spec fn digit_index(i: int) -> int {
    if i < 8 {
        i
    } else if i < 13 {
        i - 1
    } else if i < 18 {
        i - 2
    } else if i < 23 {
        i - 3
    } else {
        i - 4
    }
}

/// The text form of a UUID: 32 lower-case hexadecimal digits of its value,
/// most significant first, in groups of 8, 4, 4, 4 and 12 joined by hyphens.
pub open spec fn uuid_text(v: u128) -> Seq<char> {
    Seq::new(
        36,
        |i: int|
            if i == 8 || i == 13 || i == 18 || i == 23 {
                '-'
            } else {
                "0123456789abcdef"@[uuid_nibble(v, digit_index(i))]
            },
    )
}

/// Whether every character of `s` is ASCII.
pub open spec fn all_ascii(s: Seq<char>) -> bool {
    forall|i: int| 0 <= i < s.len() ==> ((#[trigger] s[i]) as u32) < 128
}

/// Relies on `uuid::Uuid::parse_str`: its outcome depends on the characters
/// alone, and an input whose length in bytes is not 32, 36, 38 or 45 is
/// refused.
#[verifier::external_body]
pub(crate) fn parse_uuid(s: &str) -> (r: Option<u128>)
    ensures
        r == uuid_of(s@),
        all_ascii(s@) && s@.len() != 32 && s@.len() != 36 && s@.len() != 38 && s@.len() != 45 ==> r is None,
{
    match uuid::Uuid::parse_str(s) {
        Ok(u) => Some(u.as_u128()),
        Err(_) => None,
    }
}

/// Relies on `uuid::Uuid::from_u128` and its `Display`, which writes the
/// hyphenated lower case form.
#[verifier::external_body]
pub(crate) fn render_uuid(v: u128) -> (r: String)
    ensures
        r@ == uuid_text(v),
{
    uuid::Uuid::from_u128(v).to_string()
}

/// Relies on `uuid::Uuid::new_v4`: a random UUID, of which nothing is promised.
#[verifier::external_body]
pub(crate) fn fresh_uuid() -> (r: u128) {
    uuid::Uuid::new_v4().as_u128()
}

/// Relies on `chrono::Utc::now` and `timestamp_millis`: the current time in
/// milliseconds since the Unix epoch, of which nothing is promised.
#[verifier::external_body]
pub(crate) fn now_millis() -> (r: i64) {
    chrono::Utc::now().timestamp_millis()
}

} // verus!
