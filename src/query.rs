use vstd::prelude::*;
use crate::record::{in_window, select_in_range, Item, TimeFilter};
use crate::timestamp::{parse_rfc3339_millis, rfc3339_millis};

verus! {

/// Which end of a window an error is about.
#[derive(Clone, Copy, Debug, PartialEq, Eq, Structural)]
pub enum RangeBound {
    Start,
    End,
}

/// Why a query yields no records.
#[derive(Clone, Copy, Debug, PartialEq, Eq, Structural)]
pub enum QueryError {
    /// The named bound is not RFC 3339 text.
    InvalidArgument(RangeBound),
    /// The store failed to run the find or to hand back its cursor.
    Store,
}

/// A query for the records whose timestamp lies in `[start_epoch, end_epoch)`,
/// both bounds RFC 3339 text.
pub struct TimeRange {
    pub start_epoch: String,
    pub end_epoch: String,
}

/// The window that two parsed bounds describe, or the error for the first
/// bound that did not parse.
pub open spec fn filter_spec(start: Option<i64>, end: Option<i64>) -> Result<TimeFilter, QueryError> {
    match (start, end) {
        (None, _) => Err(QueryError::InvalidArgument(RangeBound::Start)),
        (Some(_), None) => Err(QueryError::InvalidArgument(RangeBound::End)),
        (Some(s), Some(e)) => Ok(TimeFilter { start_millis: s, end_millis: e }),
    }
}

/// The window that a query's text describes.
pub open spec fn range_filter(start: Seq<char>, end: Seq<char>) -> Result<TimeFilter, QueryError> {
    filter_spec(rfc3339_millis(start), rfc3339_millis(end))
}

/// Builds the window from its two parsed bounds (`None`: the text was not RFC 3339).
pub fn filter_from_bounds(start: Option<i64>, end: Option<i64>) -> (r: Result<TimeFilter, QueryError>)
    ensures
        r == filter_spec(start, end),
{
    match start {
        None => Err(QueryError::InvalidArgument(RangeBound::Start)),
        Some(s) => match end {
            None => Err(QueryError::InvalidArgument(RangeBound::End)),
            Some(e) => Ok(TimeFilter { start_millis: s, end_millis: e }),
        },
    }
}

impl TimeRange {
    pub fn new(start_epoch: String, end_epoch: String) -> (r: TimeRange)
        ensures
            r.start_epoch@ == start_epoch@,
            r.end_epoch@ == end_epoch@,
    {
        TimeRange { start_epoch, end_epoch }
    }

    /// Parses both bounds into the store's filter `start <= timestamp < end`.
    /// Text that is not RFC 3339 is reported as an invalid argument, the start
    /// bound first.
    pub fn to_filter(&self) -> (r: Result<TimeFilter, QueryError>)
        ensures
            r == range_filter(self.start_epoch@, self.end_epoch@),
    {
        let s = match parse_rfc3339_millis(self.start_epoch.as_str()) {
            Ok(m) => Some(m),
            Err(_) => None,
        };
        let e = match parse_rfc3339_millis(self.end_epoch.as_str()) {
            Ok(m) => Some(m),
            Err(_) => None,
        };
        filter_from_bounds(s, e)
    }
}

/// What a query answers, given the records that the store's cursor yielded
/// for it: those in the window, in cursor order.
pub open spec fn answer_spec(filter: Result<TimeFilter, QueryError>, fetched: Seq<Item>) -> Result<Seq<Item>, QueryError> {
    match filter {
        Err(e) => Err(e),
        Ok(f) => Ok(in_window(fetched, f)),
    }
}

/// Answers a query from the records drained from the store's cursor: a
/// malformed bound gives its `InvalidArgument` error, otherwise exactly the
/// fetched records whose timestamp lies in the window, in order.
pub fn answer_query(range: &TimeRange, fetched: &Vec<Item>) -> (r: Result<Vec<Item>, QueryError>)
    ensures
        match r {
            Ok(v) => answer_spec(range_filter(range.start_epoch@, range.end_epoch@), fetched@) == Ok::<Seq<Item>, QueryError>(v@),
            Err(e) => answer_spec(range_filter(range.start_epoch@, range.end_epoch@), fetched@) == Err::<Seq<Item>, QueryError>(e),
        },
{
    match range.to_filter() {
        Err(e) => Err(e),
        Ok(f) => Ok(select_in_range(fetched, &f)),
    }
}

/// A query whose start bound is not RFC 3339 text is answered with an
/// `InvalidArgument` error for that bound, whatever the store holds: never
/// with a list of records, empty or not.
pub proof fn lemma_malformed_start_rejected(start: Seq<char>, end: Seq<char>, fetched: Seq<Item>)
    requires
        rfc3339_millis(start).is_none(),
    ensures
        answer_spec(range_filter(start, end), fetched) == Err::<Seq<Item>, QueryError>(
            QueryError::InvalidArgument(RangeBound::Start),
        ),
{
}

} // verus!
