use vstd::prelude::*;

verus! {

/// One telemetry sample.
///
/// The timestamp is held as milliseconds since the Unix epoch, the precision of
/// the store's native temporal type. The seven measurements are an opaque
/// payload to this crate: each holds the IEEE-754 bit pattern of the value.
#[allow(non_snake_case)]
#[derive(Clone, Copy, Debug, PartialEq, Eq, Structural)]
pub struct Item {
    pub timestamp: i64,
    pub I130_lon_deg: u64,
    pub I030_tod_s: u64,
    pub I140_galt_ft: u64,
    pub I145_fl: u64,
    pub I155_bvr_ftpm: u64,
    pub I160_gs_nmps: u64,
    pub I130_lat_deg: u64,
    pub I160_ta_deg: u64,
}

/// A half-open window `[start_millis, end_millis)` of timestamps.
///
/// `start_millis <= end_millis` is not required: an inverted window is empty.
#[derive(Clone, Copy, Debug, PartialEq, Eq, Structural)]
pub struct TimeFilter {
    pub start_millis: i64,
    pub end_millis: i64,
}

impl TimeFilter {
    pub open spec fn contains_spec(&self, t: i64) -> bool {
        self.start_millis <= t && t < self.end_millis
    }

    /// Whether `t` lies in the window: `start <= t < end`.
    #[verifier::when_used_as_spec(contains_spec)]
    pub fn contains(&self, t: i64) -> (r: bool)
        ensures
            r == self.contains_spec(t),
    {
        self.start_millis <= t && t < self.end_millis
    }

    pub open spec fn admits(self) -> spec_fn(Item) -> bool {
        |it: Item| self.contains_spec(it.timestamp)
    }
}

/// The records of `records` whose timestamp lies in `f`, in input order.
pub open spec fn in_window(records: Seq<Item>, f: TimeFilter) -> Seq<Item> {
    records.filter(f.admits())
}

/// Keeps, in order, the records whose timestamp lies in the window.
pub fn select_in_range(records: &Vec<Item>, f: &TimeFilter) -> (r: Vec<Item>)
    ensures
        r@ == in_window(records@, *f),
{
    let mut r: Vec<Item> = Vec::new();
    let mut i: usize = 0;
    while i < records.len()
        invariant
            i <= records@.len(),
            r@ == in_window(records@.take(i as int), *f),
        decreases records@.len() - i,
    {
        let it = records[i];
        proof {
            let s = records@.take(i as int + 1);
            assert(s.drop_last() =~= records@.take(i as int));
            assert(s.last() == it);
            reveal(Seq::filter);
        }
        if f.contains(it.timestamp) {
            r.push(it);
        }
        i = i + 1;
    }
    assert(records@.take(records@.len() as int) =~= records@);
    r
}

/// A record is returned for a window exactly when it was among the inputs and
/// its timestamp `t` satisfies `start <= t < end`.
pub proof fn lemma_window_membership(records: Seq<Item>, f: TimeFilter, it: Item)
    ensures
        in_window(records, f).contains(it) <==> (records.contains(it) && f.start_millis
            <= it.timestamp && it.timestamp < f.end_millis),
    decreases records.len(),
{
    reveal(Seq::filter);
    if records.len() > 0 {
        let rest = records.drop_last();
        lemma_window_membership(rest, f, it);
        assert(records =~= rest.push(records.last()));
        if records.contains(it) && it != records.last() {
            let k = choose|k: int| 0 <= k < records.len() && records[k] == it;
            assert(rest[k] == it);
        }
        if rest.contains(it) {
            let k = choose|k: int| 0 <= k < rest.len() && rest[k] == it;
            assert(records[k] == it);
        }
        if f.contains_spec(records.last().timestamp) {
            let sub = in_window(rest, f);
            if sub.push(records.last()).contains(it) && it != records.last() {
                let k = choose|k: int| 0 <= k < sub.push(records.last()).len() && sub.push(records.last())[k] == it;
                assert(sub[k] == it);
            }
            if sub.contains(it) {
                let k = choose|k: int| 0 <= k < sub.len() && sub[k] == it;
                assert(sub.push(records.last())[k] == it);
            }
            assert(sub.push(records.last())[sub.len() as int] == records.last());
        }
        assert(records[records.len() - 1] == records.last());
    }
}

} // verus!
