//! The two things a goal takes from its surroundings when it starts or ends:
//! the time, and a fresh identity.
use vstd::prelude::*;
#[allow(unused_imports)]
use vstd::string::*;

verus! {

/// A digit or a mark of a timestamp.
pub open spec fn stamp_char(c: char) -> bool {
    ('0' <= c <= '9') || c == '-' || c == '+' || c == ':' || c == '.' || c == 'T'
}

/// The form of a timestamp in universal time: a date, a time, and its offset.
pub open spec fn is_timestamp(s: Seq<char>) -> bool {
    &&& s.len() >= 25
    &&& forall|i: int| 0 <= i < s.len() ==> stamp_char(#[trigger] s[i])
    &&& s.skip(s.len() - 6) == "+00:00"@
}

/// The current time, as `chrono::Utc::now` reads it from the machine's clock
/// and `DateTime::to_rfc3339` writes it: date and time to the second at least,
/// and the offset of universal time. Which time it is depends on the clock,
/// and there is none while the clock stands before 1970: `Utc::now` panics.
#[verifier::external_body]
pub(crate) fn now_rfc3339() -> (r: String)
    ensures
        is_timestamp(r@),
{
    chrono::Utc::now().to_rfc3339()
}

/// A lower-case hexadecimal digit or a hyphen.
pub open spec fn uuid_char(c: char) -> bool {
    ('0' <= c <= '9') || ('a' <= c <= 'f') || c == '-'
}

/// A random identity: `uuid::Uuid::new_v4`, written by its `Display` in the
/// hyphenated form, which is 36 characters of lower-case hexadecimal digits
/// and hyphens. Which identity it is depends on chance.
#[verifier::external_body]
pub(crate) fn fresh_uuid() -> (r: String)
    ensures
        r@.len() == 36,
        forall|i: int| 0 <= i < 36 ==> uuid_char(#[trigger] r@[i]),
{
    uuid::Uuid::new_v4().to_string()
}

} // verus!
