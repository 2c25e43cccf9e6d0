//! A fixed-size pool of workers fed from one unbounded FIFO queue, with a
//! completion slot per request that the caller redeems exactly once.
//!
//! The pool is the bookkeeping side of the bridge: threads that run the
//! workers ask it for the next envelope and report each outcome back to it.
//! Every submitted request has a ticket, and the ghost history records where
//! each ticket stands: queued, running on one worker, resolved with an
//! outcome, or consumed by its caller.
use vstd::prelude::*;
use std::collections::HashMap;
use crate::bridge::Outcome;

verus! {

broadcast use vstd::std_specs::hash::group_hash_axioms;

/// The number of occupied entries among worker assignments.
pub open spec fn busy_count(s: Seq<Option<u64>>) -> nat
    decreases s.len(),
{
    if s.len() == 0 {
        0
    } else {
        busy_count(s.drop_last()) + if s.last().is_some() {
            1nat
        } else {
            0nat
        }
    }
}

/// A request together with the ticket its caller holds.
#[derive(Debug)]
pub struct Envelope<Req> {
    pub ticket: u64,
    pub request: Req,
}

/// Why the pool refused a submission.
#[derive(PartialEq, Eq, Debug, Clone, Copy)]
pub enum Rejected {
    /// The pool no longer takes work.
    Closed,
    /// Every ticket number has been handed out.
    TicketsExhausted,
}

/// Where one ticket stands.
pub enum TicketState<Req, Res> {
    /// Waiting in the queue.
    Queued(Req),
    /// Being executed by the worker with this index.
    Running(usize, Req),
    /// Executed; the outcome waits in its completion slot.
    Resolved(Req, Outcome<Res>),
    /// The caller has taken the outcome.
    Consumed(Req, Outcome<Res>),
}

/// The pool. `workers[w]` is the ticket worker `w` is executing, if any;
/// `slots` maps each resolved ticket to its outcome.
pub struct WorkerPool<Req, Res> {
    size: usize,
    open: bool,
    queue: Vec<Envelope<Req>>,
    workers: Vec<Option<u64>>,
    slots: HashMap<u64, Outcome<Res>>,
    next_ticket: u64,
    history: Ghost<Seq<TicketState<Req, Res>>>,
}

impl<Req, Res> WorkerPool<Req, Res> {
    /// The number of workers, fixed at creation.
    pub closed spec fn spec_size(&self) -> nat {
        self.size as nat
    }

    /// Whether the pool still takes submissions.
    pub closed spec fn is_open(&self) -> bool {
        self.open
    }

    /// The number of tickets handed out so far.
    pub closed spec fn submitted(&self) -> nat {
        self.next_ticket as nat
    }

    /// Where each ticket handed out so far stands, indexed by ticket.
    pub closed spec fn history(&self) -> Seq<TicketState<Req, Res>> {
        self.history@
    }

    /// The ticket that worker `w` is executing, if any.
    pub closed spec fn assigned(&self, w: int) -> Option<u64> {
        self.workers@[w]
    }

    /// The requests waiting in the queue, oldest first.
    pub closed spec fn queued(&self) -> Seq<Envelope<Req>> {
        self.queue@
    }

    /// The oldest ticket still in the queue (the next one handed out, if the
    /// queue is empty).
    pub open spec fn head(&self) -> nat {
        (self.submitted() - self.queued().len()) as nat
    }

    /// Worker `w` exists and holds no envelope.
    pub open spec fn is_idle(&self, w: int) -> bool {
        0 <= w < self.spec_size() && self.assigned(w).is_none()
    }

    /// Worker `w` may take the next envelope now.
    pub open spec fn can_start(&self, w: int) -> bool {
        self.is_idle(w) && self.queued().len() > 0
    }

    /// The number of workers executing an envelope.
    pub open spec fn active(&self) -> nat {
        busy_count(Seq::new(self.spec_size(), |w: int| self.assigned(w)))
    }

    /// Ticket `t` has been handed out and its outcome has been produced.
    pub open spec fn has_outcome(&self, t: int) -> bool {
        0 <= t < self.submitted() && match self.history()[t] {
            TicketState::Resolved(_, _) | TicketState::Consumed(_, _) => true,
            _ => false,
        }
    }

    /// The internal invariant: the queue holds exactly the queued tickets in
    /// ticket order, each running ticket sits on its own worker, and the
    /// completion slots hold exactly the resolved tickets with their outcomes.
    pub closed spec fn wf(&self) -> bool {
        &&& self.size >= 1
        &&& self.workers@.len() == self.size
        &&& self.history@.len() == self.next_ticket
        &&& self.queue@.len() <= self.next_ticket
        &&& forall|i: int|
            0 <= i < self.queue@.len() ==> {
                &&& #[trigger] self.queue@[i].ticket == self.head() + i
                &&& self.history@[self.head() + i] == TicketState::<Req, Res>::Queued(
                    self.queue@[i].request,
                )
            }
        &&& forall|t: int|
            0 <= t < self.head() ==> !(#[trigger] self.history@[t] is Queued)
        &&& forall|w: int|
            0 <= w < self.workers@.len() && (#[trigger] self.workers@[w]).is_some() ==> {
                let t = self.workers@[w].unwrap();
                &&& t < self.head()
                &&& self.history@[t as int] matches TicketState::Running(v, _) && v == w
            }
        &&& forall|t: int|
            0 <= t < self.history@.len() && (#[trigger] self.history@[t] is Running) ==> {
                let v = self.history@[t]->Running_0;
                &&& v < self.size
                &&& self.workers@[v as int] == Some(t as u64)
            }
        &&& forall|t: u64|
            #[trigger] self.slots@.contains_key(t) <==> (t < self.next_ticket
                && self.history@[t as int] is Resolved)
        &&& forall|t: u64|
            #![trigger self.slots@[t]]
            t < self.next_ticket && self.history@[t as int] is Resolved ==> self.slots@[t]
                == self.history@[t as int]->Resolved_1
    }

    /// Creates a pool of `size` workers, all idle, with an empty queue.
    pub fn new(size: usize) -> (r: Self)
        requires
            size >= 1,
        ensures
            r.wf(),
            r.spec_size() == size,
            r.is_open(),
            r.submitted() == 0,
            r.history() == Seq::<TicketState<Req, Res>>::empty(),
            r.queued() == Seq::<Envelope<Req>>::empty(),
            forall|w: int| 0 <= w < size ==> (#[trigger] r.assigned(w)) is None,
    {
        let mut workers: Vec<Option<u64>> = Vec::new();
        let mut i: usize = 0;
        while i < size
            invariant
                i <= size,
                workers@.len() == i,
                forall|w: int| 0 <= w < i ==> (#[trigger] workers@[w]).is_none(),
            decreases size - i,
        {
            workers.push(None);
            i = i + 1;
        }
        WorkerPool {
            size,
            open: true,
            queue: Vec::new(),
            workers,
            slots: HashMap::new(),
            next_ticket: 0,
            history: Ghost(Seq::empty()),
        }
    }

    /// The number of workers.
    pub fn size(&self) -> (r: usize)
        ensures
            r == self.spec_size(),
    {
        self.size
    }

    /// The number of envelopes waiting in the queue.
    pub fn pending(&self) -> (r: usize)
        ensures
            r == self.queued().len(),
    {
        self.queue.len()
    }

    /// Whether worker `w` exists and holds no envelope.
    pub fn worker_idle(&self, w: usize) -> (r: bool)
        requires
            self.wf(),
        ensures
            r == self.is_idle(w as int),
    {
        w < self.size && self.workers[w].is_none()
    }

    /// The number of workers executing an envelope.
    pub fn active_count(&self) -> (r: usize)
        requires
            self.wf(),
        ensures
            r == self.active(),
    {
        let ghost all = Seq::new(self.spec_size(), |w: int| self.assigned(w));
        let mut n: usize = 0;
        let mut w: usize = 0;
        while w < self.size
            invariant
                self.wf(),
                w <= self.size,
                all == Seq::new(self.spec_size(), |w: int| self.assigned(w)),
                n == busy_count(all.take(w as int)),
                n <= w,
            decreases self.size - w,
        {
            assert(all.take(w + 1).drop_last() == all.take(w as int));
            if self.workers[w].is_some() {
                n = n + 1;
            }
            w = w + 1;
        }
        assert(all.take(w as int) == all);
        n
    }

    /// Stops taking submissions. Work already queued is still served.
    pub fn close(&mut self)
        requires
            old(self).wf(),
        ensures
            final(self).wf(),
            !final(self).is_open(),
            final(self).spec_size() == old(self).spec_size(),
            final(self).submitted() == old(self).submitted(),
            final(self).history() == old(self).history(),
            final(self).queued() == old(self).queued(),
            forall|w: int| #[trigger] final(self).assigned(w) == old(self).assigned(w),
    {
        self.open = false;
    }

    /// Puts a request at the back of the queue and hands out its ticket.
    /// Never blocks: the queue has no bound. Refused exactly when the pool
    /// is closed or every ticket number is used up; then nothing changes.
    pub fn submit(&mut self, request: Req) -> (r: Result<u64, Rejected>)
        requires
            old(self).wf(),
        ensures
            final(self).wf(),
            final(self).spec_size() == old(self).spec_size(),
            final(self).is_open() == old(self).is_open(),
            forall|w: int| #[trigger] final(self).assigned(w) == old(self).assigned(w),
            !old(self).is_open() ==> r == Err::<u64, Rejected>(Rejected::Closed)
                && final(self).history() == old(self).history()
                && final(self).queued() == old(self).queued()
                && final(self).submitted() == old(self).submitted(),
            old(self).is_open() && old(self).submitted() >= u64::MAX ==> r == Err::<
                u64,
                Rejected,
            >(Rejected::TicketsExhausted) && final(self).history() == old(self).history()
                && final(self).queued() == old(self).queued()
                && final(self).submitted() == old(self).submitted(),
            old(self).is_open() && old(self).submitted() < u64::MAX ==> {
                &&& r == Ok::<u64, Rejected>(old(self).submitted() as u64)
                &&& final(self).submitted() == old(self).submitted() + 1
                &&& final(self).history() == old(self).history().push(
                    TicketState::Queued(request),
                )
                &&& final(self).queued() == old(self).queued().push(
                    Envelope { ticket: old(self).submitted() as u64, request },
                )
            },
    {
        if !self.open {
            return Err(Rejected::Closed);
        }
        if self.next_ticket == u64::MAX {
            return Err(Rejected::TicketsExhausted);
        }
        let ticket = self.next_ticket;
        let ghost old_pool = *self;
        self.history = Ghost(self.history@.push(TicketState::Queued(request)));
        self.queue.push(Envelope { ticket, request });
        self.next_ticket = ticket + 1;
        proof {
            assert(self.head() == old_pool.head());
            assert forall|t: u64| #[trigger]
                self.slots@.contains_key(t) <==> (t < self.next_ticket
                    && self.history@[t as int] is Resolved) by {
                if t < ticket {
                    assert(self.history@[t as int] == old_pool.history@[t as int]);
                }
            }
            assert forall|t: u64|
                #![trigger self.slots@[t]]
                t < self.next_ticket && self.history@[t as int] is Resolved implies self.slots@[t]
                    == self.history@[t as int]->Resolved_1 by {
                assert(self.history@[t as int] == old_pool.history@[t as int]);
            }
        }
        Ok(ticket)
    }

    /// Worker `w` takes the oldest envelope in the queue, if it is idle and
    /// the queue is not empty; otherwise nothing changes. A worker thus holds
    /// at most one envelope, and envelopes leave the queue in the order they
    /// were submitted.
    pub fn start(&mut self, w: usize) -> (r: Option<Envelope<Req>>)
        requires
            old(self).wf(),
        ensures
            final(self).wf(),
            final(self).spec_size() == old(self).spec_size(),
            final(self).is_open() == old(self).is_open(),
            final(self).submitted() == old(self).submitted(),
            r.is_some() == old(self).can_start(w as int),
            r.is_none() ==> final(self).history() == old(self).history() && final(self).queued()
                == old(self).queued() && forall|v: int| #[trigger]
                final(self).assigned(v) == old(self).assigned(v),
            r matches Some(e) ==> {
                &&& e == old(self).queued()[0]
                &&& e.ticket == old(self).head()
                &&& final(self).queued() == old(self).queued().drop_first()
                &&& final(self).history() == old(self).history().update(
                    e.ticket as int,
                    TicketState::Running(w, e.request),
                )
                &&& final(self).assigned(w as int) == Some(e.ticket)
                &&& forall|v: int|
                    0 <= v < old(self).spec_size() && v != w ==> #[trigger] final(self).assigned(v)
                        == old(self).assigned(v)
            },
    {
        if w >= self.size || self.workers[w].is_some() || self.queue.len() == 0 {
            return None;
        }
        let ghost old_pool = *self;
        let e = self.queue.remove(0);
        let ghost t = e.ticket as int;
        self.history = Ghost(self.history@.update(t, TicketState::Running(w, e.request)));
        self.workers.set(w, Some(e.ticket));
        proof {
            assert(old_pool.queue@[0].ticket == old_pool.head() + 0);
            assert(self.head() == old_pool.head() + 1);
            assert forall|i: int| 0 <= i < self.queue@.len() implies {
                &&& #[trigger] self.queue@[i].ticket == self.head() + i
                &&& self.history@[self.head() + i] == TicketState::<Req, Res>::Queued(
                    self.queue@[i].request,
                )
            } by {
                assert(self.queue@[i] == old_pool.queue@[i + 1]);
                assert(old_pool.queue@[i + 1].ticket == old_pool.head() + (i + 1));
            }
            assert forall|t2: int| 0 <= t2 < self.head() implies !(#[trigger] self.history@[t2] is Queued) by {
                if t2 != t {
                    assert(self.history@[t2] == old_pool.history@[t2]);
                }
            }
            assert forall|v: int|
                0 <= v < self.workers@.len() && (#[trigger] self.workers@[v]).is_some() implies {
                let t3 = self.workers@[v].unwrap();
                &&& t3 < self.head()
                &&& self.history@[t3 as int] matches TicketState::Running(x, _) && x == v
            } by {
                if v != w {
                    assert(old_pool.workers@[v].is_some());
                    let t3 = old_pool.workers@[v].unwrap();
                    assert(old_pool.history@[t3 as int] is Running);
                    assert(t3 != t);
                }
            }
            assert forall|t2: int|
                0 <= t2 < self.history@.len() && (#[trigger] self.history@[t2] is Running) implies {
                let v = self.history@[t2]->Running_0;
                &&& v < self.size
                &&& self.workers@[v as int] == Some(t2 as u64)
            } by {
                if t2 != t {
                    assert(self.history@[t2] == old_pool.history@[t2]);
                    let v = old_pool.history@[t2]->Running_0;
                    if v == w {
                        assert(old_pool.workers@[w as int] == Some(t2 as u64));
                    }
                }
            }
            assert forall|t2: u64| #[trigger]
                self.slots@.contains_key(t2) <==> (t2 < self.next_ticket
                    && self.history@[t2 as int] is Resolved) by {
                if t2 as int != t && t2 < self.next_ticket {
                    assert(self.history@[t2 as int] == old_pool.history@[t2 as int]);
                }
            }
            assert forall|t2: u64|
                #![trigger self.slots@[t2]]
                t2 < self.next_ticket && self.history@[t2 as int] is Resolved implies self.slots@[t2]
                    == self.history@[t2 as int]->Resolved_1 by {
                assert(self.history@[t2 as int] == old_pool.history@[t2 as int]);
            }
        }
        Some(e)
    }

    /// Worker `w` reports the outcome of the envelope it holds. The outcome
    /// goes into that ticket's completion slot and the worker becomes idle,
    /// whether the outcome is a value or a failure. Returns false, changing
    /// nothing, when the worker holds no envelope.
    pub fn complete(&mut self, w: usize, outcome: Outcome<Res>) -> (r: bool)
        requires
            old(self).wf(),
        ensures
            final(self).wf(),
            final(self).spec_size() == old(self).spec_size(),
            final(self).is_open() == old(self).is_open(),
            final(self).submitted() == old(self).submitted(),
            final(self).queued() == old(self).queued(),
            r == (w < old(self).spec_size() && old(self).assigned(w as int).is_some()),
            !r ==> final(self).history() == old(self).history() && forall|v: int| #[trigger]
                final(self).assigned(v) == old(self).assigned(v),
            r ==> {
                let t = old(self).assigned(w as int).unwrap() as int;
                &&& old(self).history()[t] is Running
                &&& final(self).history() == old(self).history().update(
                    t,
                    TicketState::Resolved(old(self).history()[t]->Running_1, outcome),
                )
                &&& final(self).is_idle(w as int)
                &&& forall|v: int|
                    0 <= v < old(self).spec_size() && v != w ==> #[trigger] final(self).assigned(v)
                        == old(self).assigned(v)
            },
    {
        if w >= self.size {
            return false;
        }
        let ticket = match self.workers[w] {
            Some(t) => t,
            None => {
                return false;
            },
        };
        let ghost old_pool = *self;
        let ghost t = ticket as int;
        proof {
            assert(old_pool.workers@[w as int].is_some());
        }
        let ghost request = self.history@[t]->Running_1;
        self.history = Ghost(self.history@.update(t, TicketState::Resolved(request, outcome)));
        self.slots.insert(ticket, outcome);
        self.workers.set(w, None);
        proof {
            assert forall|t2: int| 0 <= t2 < self.head() implies !(#[trigger] self.history@[t2] is Queued) by {
                if t2 != t {
                    assert(self.history@[t2] == old_pool.history@[t2]);
                }
            }
            assert forall|i: int| 0 <= i < self.queue@.len() implies {
                &&& #[trigger] self.queue@[i].ticket == self.head() + i
                &&& self.history@[self.head() + i] == TicketState::<Req, Res>::Queued(
                    self.queue@[i].request,
                )
            } by {
                assert(old_pool.queue@[i].ticket == old_pool.head() + i);
            }
            assert forall|v: int|
                0 <= v < self.workers@.len() && (#[trigger] self.workers@[v]).is_some() implies {
                let t3 = self.workers@[v].unwrap();
                &&& t3 < self.head()
                &&& self.history@[t3 as int] matches TicketState::Running(x, _) && x == v
            } by {
                assert(old_pool.workers@[v].is_some());
                let t3 = old_pool.workers@[v].unwrap();
                assert(old_pool.history@[t3 as int] is Running);
            }
            assert forall|t2: int|
                0 <= t2 < self.history@.len() && (#[trigger] self.history@[t2] is Running) implies {
                let v = self.history@[t2]->Running_0;
                &&& v < self.size
                &&& self.workers@[v as int] == Some(t2 as u64)
            } by {
                assert(self.history@[t2] == old_pool.history@[t2]);
                let v = old_pool.history@[t2]->Running_0;
                assert(old_pool.workers@[v as int] == Some(t2 as u64));
            }
            assert forall|t2: u64| #[trigger]
                self.slots@.contains_key(t2) <==> (t2 < self.next_ticket
                    && self.history@[t2 as int] is Resolved) by {
                if t2 != ticket && t2 < self.next_ticket {
                    assert(self.history@[t2 as int] == old_pool.history@[t2 as int]);
                }
            }
            assert forall|t2: u64|
                #![trigger self.slots@[t2]]
                t2 < self.next_ticket && self.history@[t2 as int] is Resolved implies self.slots@[t2]
                    == self.history@[t2 as int]->Resolved_1 by {
                if t2 != ticket {
                    assert(self.history@[t2 as int] == old_pool.history@[t2 as int]);
                }
            }
        }
        true
    }

    /// The caller holding `ticket` takes its outcome out of the completion
    /// slot. This succeeds once, after the outcome is produced: before that,
    /// and ever after, it returns `None` and changes nothing.
    pub fn take(&mut self, ticket: u64) -> (r: Option<Outcome<Res>>)
        requires
            old(self).wf(),
        ensures
            final(self).wf(),
            final(self).spec_size() == old(self).spec_size(),
            final(self).is_open() == old(self).is_open(),
            final(self).submitted() == old(self).submitted(),
            final(self).queued() == old(self).queued(),
            forall|v: int| #[trigger] final(self).assigned(v) == old(self).assigned(v),
            r.is_some() == (ticket < old(self).submitted() && old(self).history()[ticket as int] is Resolved),
            r.is_none() ==> final(self).history() == old(self).history(),
            r matches Some(o) ==> {
                let req = old(self).history()[ticket as int]->Resolved_0;
                &&& o == old(self).history()[ticket as int]->Resolved_1
                &&& final(self).history() == old(self).history().update(
                    ticket as int,
                    TicketState::Consumed(req, o),
                )
            },
    {
        let ghost old_pool = *self;
        let taken = self.slots.remove(&ticket);
        match taken {
            None => None,
            Some(o) => {
                let ghost t = ticket as int;
                let ghost req = self.history@[t]->Resolved_0;
                self.history = Ghost(self.history@.update(t, TicketState::Consumed(req, o)));
                proof {
                    assert forall|t2: int| 0 <= t2 < self.head() implies !(#[trigger] self.history@[t2] is Queued) by {
                        if t2 != t {
                            assert(self.history@[t2] == old_pool.history@[t2]);
                        }
                    }
                    assert forall|i: int| 0 <= i < self.queue@.len() implies {
                        &&& #[trigger] self.queue@[i].ticket == self.head() + i
                        &&& self.history@[self.head() + i] == TicketState::<Req, Res>::Queued(
                            self.queue@[i].request,
                        )
                    } by {
                        assert(old_pool.queue@[i].ticket == old_pool.head() + i);
                    }
                    assert forall|v: int|
                        0 <= v < self.workers@.len() && (#[trigger] self.workers@[v]).is_some() implies {
                        let t3 = self.workers@[v].unwrap();
                        &&& t3 < self.head()
                        &&& self.history@[t3 as int] matches TicketState::Running(x, _) && x == v
                    } by {
                        let t3 = old_pool.workers@[v].unwrap();
                        assert(old_pool.history@[t3 as int] is Running);
                    }
                    assert forall|t2: int|
                        0 <= t2 < self.history@.len() && (#[trigger] self.history@[t2] is Running) implies {
                        let v = self.history@[t2]->Running_0;
                        &&& v < self.size
                        &&& self.workers@[v as int] == Some(t2 as u64)
                    } by {
                        assert(self.history@[t2] == old_pool.history@[t2]);
                    }
                    assert forall|t2: u64| #[trigger]
                        self.slots@.contains_key(t2) <==> (t2 < self.next_ticket
                            && self.history@[t2 as int] is Resolved) by {
                        if t2 != ticket && t2 < self.next_ticket {
                            assert(self.history@[t2 as int] == old_pool.history@[t2 as int]);
                        }
                    }
                    assert forall|t2: u64|
                        #![trigger self.slots@[t2]]
                        t2 < self.next_ticket && self.history@[t2 as int] is Resolved implies self.slots@[t2]
                            == self.history@[t2 as int]->Resolved_1 by {
                        if t2 != ticket {
                            assert(self.history@[t2 as int] == old_pool.history@[t2 as int]);
                            assert(old_pool.slots@[t2] == old_pool.history@[t2 as int]->Resolved_1);
                        }
                    }
                }
                Some(o)
            },
        }
    }
}

/// Worker assignments never count more busy workers than there are entries.
pub proof fn lemma_busy_count_bounded(s: Seq<Option<u64>>)
    ensures
        busy_count(s) <= s.len(),
    decreases s.len(),
{
    if s.len() > 0 {
        lemma_busy_count_bounded(s.drop_last());
    }
}

/// Every ticket handed out stands in exactly one place: it is queued exactly
/// when it is at or past the queue's head, and a running ticket is the one
/// envelope its worker holds.
pub proof fn lemma_ticket_accounting<Req, Res>(p: WorkerPool<Req, Res>, t: int)
    requires
        p.wf(),
        0 <= t < p.submitted(),
    ensures
        p.history().len() == p.submitted(),
        (p.history()[t] is Queued) <==> p.head() <= t,
        p.head() <= t ==> p.queued()[t - p.head()].ticket == t && p.history()[t]
            == TicketState::<Req, Res>::Queued(p.queued()[t - p.head()].request),
        p.history()[t] matches TicketState::Running(w, _) ==> w < p.spec_size() && p.assigned(
            w as int,
        ) == Some(t as u64),
{
    if p.head() <= t {
        let i = t - p.head();
        assert(p.queue@[i].ticket == p.head() + i);
    }
}

/// Once the queue is empty and every worker is idle, every ticket handed
/// out has its outcome: as many outcomes as submissions, none lost.
pub proof fn lemma_idle_pool_has_every_outcome<Req, Res>(p: WorkerPool<Req, Res>)
    requires
        p.wf(),
        p.queued().len() == 0,
        forall|w: int| 0 <= w < p.spec_size() ==> #[trigger] p.is_idle(w),
    ensures
        forall|t: int| 0 <= t < p.submitted() ==> #[trigger] p.has_outcome(t),
{
    assert forall|t: int| 0 <= t < p.submitted() implies #[trigger] p.has_outcome(t) by {
        lemma_ticket_accounting(p, t);
        if p.history()[t] is Running {
            let w = p.history()[t]->Running_0;
            assert(p.is_idle(w as int));
        }
    }
}

/// At no moment do more requests execute than the pool has workers, and a
/// worker executes at most one request at a time: two running tickets on the
/// same worker are the same ticket.
pub proof fn lemma_active_within_size<Req, Res>(p: WorkerPool<Req, Res>, t1: int, t2: int)
    requires
        p.wf(),
    ensures
        p.active() <= p.spec_size(),
        0 <= t1 < p.submitted() && 0 <= t2 < p.submitted() && p.history()[t1] is Running
            && p.history()[t2] is Running && p.history()[t1]->Running_0
            == p.history()[t2]->Running_0 ==> t1 == t2,
{
    lemma_busy_count_bounded(Seq::new(p.spec_size(), |w: int| p.assigned(w)));
    if 0 <= t1 < p.submitted() && 0 <= t2 < p.submitted() && p.history()[t1] is Running
        && p.history()[t2] is Running {
        lemma_ticket_accounting(p, t1);
        lemma_ticket_accounting(p, t2);
    }
}

/// Work never stalls: while envelopes wait, some worker can take one, or
/// every worker holds an envelope whose outcome it can report.
pub proof fn lemma_waiting_work_can_proceed<Req, Res>(p: WorkerPool<Req, Res>)
    requires
        p.wf(),
        p.queued().len() > 0,
    ensures
        (exists|w: int| #[trigger] p.can_start(w)) || forall|w: int|
            0 <= w < p.spec_size() ==> (#[trigger] p.assigned(w)).is_some(),
{
    if !(forall|w: int| 0 <= w < p.spec_size() ==> (#[trigger] p.assigned(w)).is_some()) {
        let w = choose|w: int| 0 <= w < p.spec_size() && !(#[trigger] p.assigned(w)).is_some();
        assert(p.can_start(w));
    }
}

} // verus!
