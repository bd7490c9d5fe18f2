use telemetry_core::actor::{Pending, QueryAction, QueryActor};
use telemetry_core::query::{answer_query, filter_from_bounds, QueryError, RangeBound, TimeRange};
use telemetry_core::record::{select_in_range, Item, TimeFilter};

const T_18_123: i64 = 1667480238123;
const T_19_000: i64 = 1667480239000;
const T_20_123: i64 = 1667480240123;

fn item(ts: i64, tag: u64) -> Item {
    Item {
        timestamp: ts,
        I130_lon_deg: tag,
        I030_tod_s: 0,
        I140_galt_ft: 0,
        I145_fl: 0,
        I155_bvr_ftpm: 0,
        I160_gs_nmps: 0,
        I130_lat_deg: 0,
        I160_ta_deg: 0,
    }
}

fn range(start: &str, end: &str) -> TimeRange {
    TimeRange::new(String::from(start), String::from(end))
}

fn three_records() -> Vec<Item> {
    vec![item(T_18_123, 1), item(T_19_000, 2), item(T_20_123, 3)]
}

#[test]
fn window_keeps_start_and_drops_end() {
    let r = range("2022-11-03T12:57:18.123Z", "2022-11-03T12:57:20.123Z");
    let got = answer_query(&r, &three_records()).unwrap();
    assert_eq!(got, vec![item(T_18_123, 1), item(T_19_000, 2)]);
}

#[test]
fn rfc3339_bounds_parse_to_milliseconds() {
    let r = range("2022-11-03T12:57:18.123Z", "2022-11-03T12:57:20.123Z");
    assert_eq!(r.to_filter(), Ok(TimeFilter { start_millis: T_18_123, end_millis: T_20_123 }));
}

#[test]
fn rfc3339_offset_is_applied() {
    let r = range("2022-11-03T13:57:18.123+01:00", "2022-11-03T12:57:20.123Z");
    assert_eq!(r.to_filter(), Ok(TimeFilter { start_millis: T_18_123, end_millis: T_20_123 }));
}

#[test]
fn malformed_start_is_invalid_argument() {
    let r = range("yesterday", "2022-11-03T12:57:20.123Z");
    assert_eq!(answer_query(&r, &three_records()), Err(QueryError::InvalidArgument(RangeBound::Start)));
}

#[test]
fn malformed_end_is_invalid_argument() {
    let r = range("2022-11-03T12:57:18.123Z", "2022-11-03 12:57:20");
    assert_eq!(answer_query(&r, &three_records()), Err(QueryError::InvalidArgument(RangeBound::End)));
}

#[test]
fn both_malformed_reports_start() {
    let r = range("", "");
    assert_eq!(r.to_filter(), Err(QueryError::InvalidArgument(RangeBound::Start)));
}

#[test]
fn bounds_from_parsed_values() {
    assert_eq!(filter_from_bounds(Some(1), Some(9)), Ok(TimeFilter { start_millis: 1, end_millis: 9 }));
    assert_eq!(filter_from_bounds(None, Some(9)), Err(QueryError::InvalidArgument(RangeBound::Start)));
    assert_eq!(filter_from_bounds(Some(1), None), Err(QueryError::InvalidArgument(RangeBound::End)));
}

#[test]
fn inverted_window_is_empty() {
    let f = TimeFilter { start_millis: T_20_123, end_millis: T_18_123 };
    assert!(select_in_range(&three_records(), &f).is_empty());
    assert!(!f.contains(T_19_000));
}

#[test]
fn empty_input_gives_empty_result() {
    let f = TimeFilter { start_millis: i64::MIN, end_millis: i64::MAX };
    assert!(select_in_range(&Vec::new(), &f).is_empty());
}

#[test]
fn window_keeps_input_order_and_duplicates() {
    let recs = vec![item(5, 1), item(3, 2), item(5, 3), item(9, 4)];
    let f = TimeFilter { start_millis: 3, end_millis: 6 };
    assert_eq!(select_in_range(&recs, &f), vec![item(5, 1), item(3, 2), item(5, 3)]);
}

fn find_of(a: &QueryAction) -> Option<Pending> {
    match a {
        QueryAction::Find(p) => Some(*p),
        _ => None,
    }
}

fn reply_of(a: &QueryAction) -> Option<(u64, Result<Vec<Item>, QueryError>)> {
    match a {
        QueryAction::Reply { id, result } => Some((*id, result.clone())),
        _ => None,
    }
}

#[test]
fn actor_runs_one_find_at_a_time_in_arrival_order() {
    let mut actor = QueryActor::new();
    let w = range("2022-11-03T12:57:18.123Z", "2022-11-03T12:57:20.123Z");
    let all = range("2022-11-03T12:57:00Z", "2022-11-03T12:58:00Z");

    let a1 = actor.submit(1, &w);
    assert_eq!(a1.len(), 1);
    assert_eq!(find_of(&a1[0]).unwrap().id, 1);
    assert!(actor.is_busy());

    assert!(actor.submit(2, &all).is_empty());
    assert!(actor.submit(3, &w).is_empty());
    assert_eq!(actor.queued(), 2);

    let d1 = actor.store_done(Some(three_records()));
    assert_eq!(d1.len(), 2);
    assert_eq!(reply_of(&d1[0]), Some((1, Ok(vec![item(T_18_123, 1), item(T_19_000, 2)]))));
    assert_eq!(find_of(&d1[1]).unwrap().id, 2);

    let d2 = actor.store_done(Some(three_records()));
    assert_eq!(reply_of(&d2[0]), Some((2, Ok(three_records()))));
    assert_eq!(find_of(&d2[1]).unwrap().id, 3);

    let d3 = actor.store_done(None);
    assert_eq!(d3.len(), 1);
    assert_eq!(reply_of(&d3[0]), Some((3, Err(QueryError::Store))));
    assert!(!actor.is_busy());
    assert_eq!(actor.queued(), 0);
}

#[test]
fn actor_answers_malformed_query_at_once() {
    let mut actor = QueryActor::new();
    let _ = actor.submit(1, &range("2022-11-03T12:57:18.123Z", "2022-11-03T12:57:20.123Z"));
    let a = actor.submit(2, &range("not a date", "2022-11-03T12:57:20.123Z"));
    assert_eq!(a.len(), 1);
    assert_eq!(reply_of(&a[0]), Some((2, Err(QueryError::InvalidArgument(RangeBound::Start)))));
    assert_eq!(actor.queued(), 0);
    assert!(actor.is_busy());
}

#[test]
fn actor_ignores_completion_when_idle() {
    let mut actor = QueryActor::new();
    assert!(actor.store_done(Some(three_records())).is_empty());
    assert!(!actor.is_busy());
}

#[test]
fn actor_accepts_prepared_filter() {
    let mut actor = QueryActor::new();
    let f = TimeFilter { start_millis: T_19_000, end_millis: T_20_123 + 1 };
    let a = actor.submit_filter(7, Ok(f));
    assert_eq!(find_of(&a[0]), Some(Pending { id: 7, filter: f }));
    let d = actor.store_done(Some(three_records()));
    assert_eq!(reply_of(&d[0]), Some((7, Ok(vec![item(T_19_000, 2), item(T_20_123, 3)]))));
}
