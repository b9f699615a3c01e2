//! What this library takes on trust from code that is not verified here.

use vstd::prelude::*;

verus! {

/// Equality of string slices, as `str`'s `PartialEq` computes it: two slices
/// are equal exactly when they hold the same characters.
pub assume_specification[ <str as PartialEq>::eq ](a: &str, b: &str) -> (r: bool)
    ensures
        r == (a@ == b@),
;

/// One of `0`..`9`, `a`..`f`.
pub open spec fn is_lower_hex_digit(c: char) -> bool {
    ('0' <= c && c <= '9') || ('a' <= c && c <= 'f')
}

/// The text of a random (version 4) UUID in lower-case hyphenated form:
/// 36 characters in groups of 8, 4, 4, 4 and 12 hexadecimal digits, the third
/// group starting with the version digit `4`, the fourth with one of the
/// variant digits `8`, `9`, `a`, `b`.
pub open spec fn is_random_uuid_text(s: Seq<char>) -> bool {
    &&& s.len() == 36
    &&& forall|i: int|
        0 <= i < 36 ==> if i == 8 || i == 13 || i == 18 || i == 23 {
            s[i] == '-'
        } else {
            is_lower_hex_digit(#[trigger] s[i])
        }
    &&& s[14] == '4'
    &&& s[19] == '8' || s[19] == '9' || s[19] == 'a' || s[19] == 'b'
}

/// Draws an identifier with `uuid::Uuid::new_v4().to_string()`. Which one
/// comes back is left to the operating system's random source, so only its
/// form is stated; that two draws differ is likely and not promised. The uuid
/// crate panics where the random source fails.
#[verifier::external_body]
pub(crate) fn random_uuid() -> (id: String)
    ensures
        is_random_uuid_text(id@),
{
    uuid::Uuid::new_v4().to_string()
}

/// Reads the wall clock through `chrono::Local::now().timestamp()`: whole
/// seconds since the Unix epoch. Nothing is known of the value but that it is
/// not negative; chrono panics on a clock set before the epoch.
#[verifier::external_body]
pub(crate) fn unix_now() -> (now: i64)
    ensures
        0 <= now,
{
    chrono::Local::now().timestamp()
}

} // verus!
