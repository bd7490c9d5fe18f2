use vstd::prelude::*;

verus! {

#[verifier::external_type_specification]
#[verifier::external_body]
pub struct ExDateTimeError(mongodb::bson::datetime::Error);

/// The instant that RFC 3339 text denotes, in whole milliseconds since the Unix
/// epoch, or `None` where the text is not RFC 3339. It depends on the text alone.
pub uninterp spec fn rfc3339_millis(s: Seq<char>) -> Option<i64>;

/// Relies on `bson::DateTime::parse_rfc3339_str`, which parses RFC 3339 text
/// and truncates it to millisecond precision, and on
/// `bson::DateTime::timestamp_millis`, which hands back those milliseconds.
#[verifier::external_body]
pub(crate) fn parse_rfc3339_millis(s: &str) -> (r: Result<i64, mongodb::bson::datetime::Error>)
    ensures
        match r {
            Ok(m) => rfc3339_millis(s@) == Some(m),
            Err(_) => rfc3339_millis(s@).is_none(),
        },
{
    mongodb::bson::DateTime::parse_rfc3339_str(s).map(|d| d.timestamp_millis())
}

} // verus!
