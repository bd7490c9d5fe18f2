use vstd::prelude::*;
use crate::query::{QueryError, TimeRange, range_filter};
use crate::record::{in_window, select_in_range, Item, TimeFilter};

verus! {

/// A query whose window parsed, waiting for or holding the store.
#[derive(Clone, Copy, Debug, PartialEq, Eq, Structural)]
pub struct Pending {
    pub id: u64,
    pub filter: TimeFilter,
}

/// What the query serializer asks its runner to do.
pub enum QueryAction {
    /// Run a find for the window against the store and drain its cursor.
    Find(Pending),
    /// Hand the result of query `id` back to its caller.
    Reply { id: u64, result: Result<Vec<Item>, QueryError> },
}

pub enum QueryActionView {
    Find(Pending),
    Reply { id: u64, result: Result<Seq<Item>, QueryError> },
}

impl View for QueryAction {
    type V = QueryActionView;

    open spec fn view(&self) -> QueryActionView {
        match self {
            QueryAction::Find(p) => QueryActionView::Find(*p),
            QueryAction::Reply { id, result } => QueryActionView::Reply {
                id: *id,
                result: match result {
                    Ok(v) => Ok(v@),
                    Err(e) => Err(*e),
                },
            },
        }
    }
}

pub open spec fn actions_view(a: Seq<QueryAction>) -> Seq<QueryActionView> {
    a.map_values(|x: QueryAction| x@)
}

pub struct QueryActorView {
    pub in_flight: Option<Pending>,
    pub queue: Seq<Pending>,
}

impl QueryActorView {
    /// Work is never left waiting while the store is idle.
    pub open spec fn wf(self) -> bool {
        self.in_flight.is_none() ==> self.queue.len() == 0
    }
}

/// Serializes queries against the one store handle: at most one find is in
/// flight, and the queries that arrive meanwhile wait in arrival order.
pub struct QueryActor {
    in_flight: Option<Pending>,
    queue: Vec<Pending>,
}

impl View for QueryActor {
    type V = QueryActorView;

    closed spec fn view(&self) -> QueryActorView {
        QueryActorView { in_flight: self.in_flight, queue: self.queue@ }
    }
}

/// A query arrives whose window parsed to `filter` (or failed to).
pub open spec fn submit_step(v: QueryActorView, id: u64, filter: Result<TimeFilter, QueryError>) -> (QueryActorView, Seq<QueryActionView>) {
    match filter {
        Err(e) => (v, seq![QueryActionView::Reply { id, result: Err(e) }]),
        Ok(f) => {
            let p = Pending { id, filter: f };
            if v.in_flight.is_none() {
                (QueryActorView { in_flight: Some(p), queue: v.queue }, seq![QueryActionView::Find(p)])
            } else {
                (QueryActorView { in_flight: v.in_flight, queue: v.queue.push(p) }, Seq::empty())
            }
        },
    }
}

/// The find in flight ended, with the drained records or (`None`) a store failure.
pub open spec fn done_step(v: QueryActorView, fetched: Option<Seq<Item>>) -> (QueryActorView, Seq<QueryActionView>) {
    match v.in_flight {
        None => (v, Seq::empty()),
        Some(p) => {
            let reply = QueryActionView::Reply {
                id: p.id,
                result: match fetched {
                    Some(s) => Ok(in_window(s, p.filter)),
                    None => Err(QueryError::Store),
                },
            };
            if v.queue.len() == 0 {
                (QueryActorView { in_flight: None, queue: v.queue }, seq![reply])
            } else {
                (
                    QueryActorView { in_flight: Some(v.queue[0]), queue: v.queue.drop_first() },
                    seq![reply, QueryActionView::Find(v.queue[0])],
                )
            }
        },
    }
}

/// The serializer never starts a second store operation while one is
/// outstanding: a new query starts a find only when the store is idle, and
/// otherwise leaves the running find untouched and waits behind every query
/// that arrived before it.
pub proof fn lemma_submit_serialized(v: QueryActorView, id: u64, filter: Result<TimeFilter, QueryError>)
    requires
        v.wf(),
    ensures
        ({
            let (v2, acts) = submit_step(v, id, filter);
            &&& v2.wf()
            &&& acts.len() <= 1
            &&& forall|p: Pending| #[trigger] acts.contains(QueryActionView::Find(p)) ==> {
                &&& v.in_flight.is_none()
                &&& v2.in_flight == Some(p)
                &&& p.id == id
            }
            &&& v.in_flight.is_some() ==> {
                &&& v2.in_flight == v.in_flight
                &&& v2.queue.subrange(0, v.queue.len() as int) == v.queue
            }
        }),
{
    let (v2, acts) = submit_step(v, id, filter);
    assert forall|p: Pending| #[trigger] acts.contains(QueryActionView::Find(p)) implies {
        &&& v.in_flight.is_none()
        &&& v2.in_flight == Some(p)
        &&& p.id == id
    } by {
        assert(acts[0] == QueryActionView::Find(p));
    }
    if v.in_flight.is_some() {
        assert(v2.queue.subrange(0, v.queue.len() as int) =~= v.queue);
    }
}

/// When the outstanding find ends, its caller is answered first, with exactly
/// the drained records that lie in its window, and only then is the next
/// store operation started, for the query that has waited longest.
pub proof fn lemma_done_serialized(v: QueryActorView, fetched: Option<Seq<Item>>)
    requires
        v.wf(),
    ensures
        ({
            let (v2, acts) = done_step(v, fetched);
            &&& v2.wf()
            &&& v.in_flight.is_none() ==> acts.len() == 0 && v2 == v
            &&& forall|p: Pending| #[trigger] v.in_flight == Some(p) ==> {
                &&& 1 <= acts.len() <= 2
                &&& acts[0] == QueryActionView::Reply {
                    id: p.id,
                    result: match fetched {
                        Some(s) => Ok(in_window(s, p.filter)),
                        None => Err(QueryError::Store),
                    },
                }
                &&& acts.len() == 2 <==> v.queue.len() > 0
                &&& acts.len() == 2 ==> {
                    &&& acts[1] == QueryActionView::Find(v.queue[0])
                    &&& v2.in_flight == Some(v.queue[0])
                    &&& v2.queue == v.queue.drop_first()
                }
                &&& acts.len() == 1 ==> v2.in_flight.is_none()
            }
        }),
{
}

impl QueryActor {
    pub fn new() -> (r: QueryActor)
        ensures
            r@.in_flight.is_none(),
            r@.queue.len() == 0,
            r@.wf(),
    {
        QueryActor { in_flight: None, queue: Vec::new() }
    }

    /// Whether a find is outstanding.
    pub fn is_busy(&self) -> (r: bool)
        ensures
            r == self@.in_flight.is_some(),
    {
        self.in_flight.is_some()
    }

    /// The number of parsed queries waiting for the store.
    pub fn queued(&self) -> (r: usize)
        ensures
            r == self@.queue.len(),
    {
        self.queue.len()
    }

    /// Takes a query whose window was already parsed (`Err`: it was malformed,
    /// and is answered at once without touching the store).
    pub fn submit_filter(&mut self, id: u64, filter: Result<TimeFilter, QueryError>) -> (r: Vec<QueryAction>)
        requires
            old(self)@.wf(),
        ensures
            final(self)@.wf(),
            (final(self)@, actions_view(r@)) == submit_step(old(self)@, id, filter),
    {
        match filter {
            Err(e) => {
                let r = vec![QueryAction::Reply { id, result: Err(e) }];
                assert(actions_view(r@) =~= seq![QueryActionView::Reply { id, result: Err(e) }]);
                r
            },
            Ok(f) => {
                let p = Pending { id, filter: f };
                if self.in_flight.is_none() {
                    self.in_flight = Some(p);
                    let r = vec![QueryAction::Find(p)];
                    assert(actions_view(r@) =~= seq![QueryActionView::Find(p)]);
                    r
                } else {
                    self.queue.push(p);
                    let r: Vec<QueryAction> = Vec::new();
                    assert(actions_view(r@) =~= Seq::<QueryActionView>::empty());
                    r
                }
            },
        }
    }

    /// Takes a query message: parses its window, then queues or dispatches it.
    pub fn submit(&mut self, id: u64, range: &TimeRange) -> (r: Vec<QueryAction>)
        requires
            old(self)@.wf(),
        ensures
            final(self)@.wf(),
            (final(self)@, actions_view(r@)) == submit_step(
                old(self)@,
                id,
                range_filter(range.start_epoch@, range.end_epoch@),
            ),
    {
        let f = range.to_filter();
        self.submit_filter(id, f)
    }

    /// The outstanding find ended: replies to its caller with the fetched
    /// records in its window (or the store error), then dispatches the next
    /// waiting query, if any.
    pub fn store_done(&mut self, fetched: Option<Vec<Item>>) -> (r: Vec<QueryAction>)
        requires
            old(self)@.wf(),
        ensures
            final(self)@.wf(),
            (final(self)@, actions_view(r@)) == done_step(
                old(self)@,
                match fetched {
                    Some(v) => Some(v@),
                    None => None,
                },
            ),
    {
        match self.in_flight {
            None => {
                let r: Vec<QueryAction> = Vec::new();
                assert(actions_view(r@) =~= Seq::<QueryActionView>::empty());
                r
            },
            Some(p) => {
                let result = match fetched {
                    Some(v) => Ok(select_in_range(&v, &p.filter)),
                    None => Err(QueryError::Store),
                };
                let mut r = vec![QueryAction::Reply { id: p.id, result }];
                if self.queue.len() == 0 {
                    self.in_flight = None;
                    assert(actions_view(r@) =~= seq![r@[0]@]);
                } else {
                    let next = self.queue.remove(0);
                    self.in_flight = Some(next);
                    r.push(QueryAction::Find(next));
                    assert(actions_view(r@) =~= seq![r@[0]@, QueryActionView::Find(next)]);
                }
                r
            },
        }
    }
}

} // verus!
