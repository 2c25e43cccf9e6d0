//! The front door of a pool and the worker's side of the response bridge:
//! submitting a request yields a deferred handle, a worker reports what its
//! handler returned, and the caller redeems the handle for its resolution.
use vstd::prelude::*;
use crate::bridge::{
    outcome_of,
    outcome_spec,
    resolution_of,
    resolution_spec,
    HandlerError,
    Resolution,
};
use crate::pool::{Envelope, TicketState, WorkerPool};

verus! {

/// What the caller holds while its request is in flight.
#[derive(PartialEq, Eq, Debug, Clone, Copy)]
pub enum Deferred {
    /// Accepted: the outcome will sit in the slot of this ticket.
    Pending(u64),
    /// The pool refused the request; it reached no worker.
    Refused,
}

/// Submits `request` to `pool` without waiting for any worker. The handle is
/// pending on the new ticket when the pool accepts the request, and refused
/// when the pool is closed or out of tickets.
pub fn dispatch<Req, Res>(pool: &mut WorkerPool<Req, Res>, request: Req) -> (h: Deferred)
    requires
        old(pool).wf(),
    ensures
        final(pool).wf(),
        final(pool).spec_size() == old(pool).spec_size(),
        final(pool).is_open() == old(pool).is_open(),
        forall|w: int| #[trigger] final(pool).assigned(w) == old(pool).assigned(w),
        (h is Pending) == (old(pool).is_open() && old(pool).submitted() < u64::MAX),
        h is Refused ==> final(pool).history() == old(pool).history() && final(pool).queued()
            == old(pool).queued() && final(pool).submitted() == old(pool).submitted(),
        h matches Deferred::Pending(t) ==> {
            &&& t == old(pool).submitted()
            &&& final(pool).submitted() == old(pool).submitted() + 1
            &&& final(pool).history() == old(pool).history().push(TicketState::Queued(request))
            &&& final(pool).queued() == old(pool).queued().push(Envelope { ticket: t, request })
        },
{
    match pool.submit(request) {
        Ok(t) => Deferred::Pending(t),
        Err(_) => Deferred::Refused,
    }
}

/// Worker `w` reports what its handler returned for the envelope it holds.
/// Any error becomes a bare failure outcome; the worker is idle afterwards
/// either way, ready for the next envelope. Returns false, changing nothing,
/// when the worker holds no envelope.
pub fn report<Req, Res>(pool: &mut WorkerPool<Req, Res>, w: usize, handled: Result<
    Res,
    HandlerError,
>) -> (r: bool)
    requires
        old(pool).wf(),
    ensures
        final(pool).wf(),
        final(pool).spec_size() == old(pool).spec_size(),
        final(pool).queued() == old(pool).queued(),
        final(pool).submitted() == old(pool).submitted(),
        r == (w < old(pool).spec_size() && old(pool).assigned(w as int).is_some()),
        !r ==> final(pool).history() == old(pool).history(),
        r ==> {
            let t = old(pool).assigned(w as int).unwrap() as int;
            &&& old(pool).history()[t] is Running
            &&& final(pool).history() == old(pool).history().update(
                t,
                TicketState::Resolved(old(pool).history()[t]->Running_1, outcome_spec(handled)),
            )
            &&& final(pool).is_idle(w as int)
        },
{
    let outcome = outcome_of(handled);
    pool.complete(w, outcome)
}

/// Redeems a handle. A refused handle resolves as a transport failure. A
/// pending one resolves once, with what its worker produced, as soon as that
/// outcome exists; until then, and after it was redeemed, the result is
/// `None` and the pool is unchanged.
pub fn redeem<Req, Res>(pool: &mut WorkerPool<Req, Res>, h: &Deferred) -> (r: Option<
    Resolution<Res>,
>)
    requires
        old(pool).wf(),
    ensures
        final(pool).wf(),
        final(pool).spec_size() == old(pool).spec_size(),
        final(pool).queued() == old(pool).queued(),
        final(pool).submitted() == old(pool).submitted(),
        forall|w: int| #[trigger] final(pool).assigned(w) == old(pool).assigned(w),
        *h is Refused ==> r == Some(Resolution::<Res>::TransportFailure) && final(pool).history()
            == old(pool).history(),
        *h matches Deferred::Pending(t) ==> {
            &&& r.is_some() == (t < old(pool).submitted() && old(pool).history()[t as int] is Resolved)
            &&& r.is_none() ==> final(pool).history() == old(pool).history()
            &&& r.is_some() ==> {
                let o = old(pool).history()[t as int]->Resolved_1;
                &&& r == Some(resolution_spec(o))
                &&& final(pool).history() == old(pool).history().update(
                    t as int,
                    TicketState::Consumed(old(pool).history()[t as int]->Resolved_0, o),
                )
            }
        },
{
    match h {
        Deferred::Refused => Some(Resolution::TransportFailure),
        Deferred::Pending(t) => match pool.take(*t) {
            Some(o) => Some(resolution_of(o)),
            None => None,
        },
    }
}

} // verus!
