use graphql_bridge::bridge::{HandlerError, Resolution};
use graphql_bridge::dispatch::{dispatch, redeem, report, Deferred};
use graphql_bridge::message::{GraphQLData, QueryPool};
use graphql_bridge::pool::{Rejected, WorkerPool};

fn ticket(h: Deferred) -> u64 {
    match h {
        Deferred::Pending(t) => t,
        Deferred::Refused => panic!("the pool refused a request"),
    }
}

#[test]
fn every_submission_resolves_once_to_its_own_caller() {
    let mut pool: WorkerPool<u32, u32> = WorkerPool::new(2);
    let handles: Vec<Deferred> = (0..5u32).map(|r| dispatch(&mut pool, r * 10)).collect();
    let mut served = 0;
    while pool.pending() > 0 {
        for w in 0..pool.size() {
            if let Some(e) = pool.start(w) {
                assert!(report(&mut pool, w, Ok(e.request + 1)));
                served += 1;
            }
        }
    }
    assert_eq!(served, 5);
    for (i, h) in handles.iter().enumerate() {
        assert_eq!(redeem(&mut pool, h), Some(Resolution::Success(i as u32 * 10 + 1)));
        assert_eq!(redeem(&mut pool, h), None);
    }
}

#[test]
fn three_workers_ten_requests() {
    let mut pool: WorkerPool<u32, u32> = WorkerPool::new(3);
    let handles: Vec<Deferred> = (0..10u32).map(|r| dispatch(&mut pool, r)).collect();
    assert_eq!(pool.pending(), 10);
    let mut in_flight: Vec<(usize, u32)> = Vec::new();
    let mut rounds = 0;
    while pool.pending() > 0 || !in_flight.is_empty() {
        for w in 0..3 {
            if let Some(e) = pool.start(w) {
                in_flight.push((w, e.request));
            }
        }
        assert!(pool.active_count() <= 3);
        assert_eq!(pool.active_count(), in_flight.len());
        if let Some((w, r)) = in_flight.pop() {
            assert!(report(&mut pool, w, Ok(r * 2)));
        }
        rounds += 1;
        assert!(rounds < 100);
    }
    for (i, h) in handles.iter().enumerate() {
        assert_eq!(redeem(&mut pool, h), Some(Resolution::Success(i as u32 * 2)));
    }
}

#[test]
fn worker_serves_after_a_failure() {
    let mut pool: WorkerPool<&str, String> = WorkerPool::new(1);
    let bad = dispatch(&mut pool, "broken");
    let good = dispatch(&mut pool, "fine");
    let e = pool.start(0).unwrap();
    assert_eq!(e.request, "broken");
    let failed: Result<String, HandlerError> =
        Err(HandlerError::Execution("syntax error at line 1".to_string()));
    assert!(report(&mut pool, 0, failed));
    assert!(pool.worker_idle(0));
    let e = pool.start(0).unwrap();
    assert_eq!(e.request, "fine");
    assert!(report(&mut pool, 0, Ok("{\"data\":1}".to_string())));
    assert_eq!(redeem(&mut pool, &bad), Some(Resolution::Failure));
    assert_eq!(redeem(&mut pool, &good), Some(Resolution::Success("{\"data\":1}".to_string())));
}

#[test]
fn worker_holds_one_envelope_in_submission_order() {
    let mut pool: WorkerPool<char, char> = WorkerPool::new(2);
    for c in ['a', 'b', 'c'] {
        dispatch(&mut pool, c);
    }
    let first = pool.start(0).unwrap();
    assert_eq!((first.ticket, first.request), (0, 'a'));
    assert!(pool.start(0).is_none());
    assert_eq!(pool.pending(), 2);
    let second = pool.start(1).unwrap();
    assert_eq!((second.ticket, second.request), (1, 'b'));
    assert!(report(&mut pool, 0, Ok('A')));
    let third = pool.start(0).unwrap();
    assert_eq!((third.ticket, third.request), (2, 'c'));
    assert_eq!(pool.pending(), 0);
    assert!(pool.start(0).is_none());
}

#[test]
fn report_without_an_envelope_changes_nothing() {
    let mut pool: WorkerPool<u8, u8> = WorkerPool::new(2);
    let h = dispatch(&mut pool, 1);
    assert!(!report(&mut pool, 0, Ok(9)));
    assert!(!report(&mut pool, 5, Ok(9)));
    assert_eq!(pool.pending(), 1);
    assert_eq!(redeem(&mut pool, &h), None);
    assert!(pool.start(7).is_none());
}

#[test]
fn redeem_before_the_outcome_is_pending() {
    let mut pool: WorkerPool<u8, u8> = WorkerPool::new(1);
    let h = dispatch(&mut pool, 3);
    assert_eq!(redeem(&mut pool, &h), None);
    pool.start(0).unwrap();
    assert_eq!(redeem(&mut pool, &h), None);
    assert!(report(&mut pool, 0, Ok(4)));
    assert_eq!(redeem(&mut pool, &h), Some(Resolution::Success(4)));
    assert_eq!(redeem(&mut pool, &h), None);
}

#[test]
fn closed_pool_refuses_as_transport_failure() {
    let mut pool: WorkerPool<u8, u8> = WorkerPool::new(1);
    let before = dispatch(&mut pool, 1);
    pool.close();
    assert_eq!(pool.submit(2), Err(Rejected::Closed));
    let after = dispatch(&mut pool, 3);
    assert_eq!(after, Deferred::Refused);
    assert_eq!(redeem(&mut pool, &after), Some(Resolution::TransportFailure));
    assert_eq!(pool.pending(), 1);
    let e = pool.start(0).unwrap();
    assert_eq!(e.ticket, ticket(before));
}

#[test]
fn serialization_failure_is_a_failure() {
    let mut pool: WorkerPool<u8, String> = WorkerPool::new(1);
    let h = dispatch(&mut pool, 0);
    pool.start(0).unwrap();
    let failed: Result<String, HandlerError> =
        Err(HandlerError::Serialization("key must be a string".to_string()));
    assert!(report(&mut pool, 0, failed));
    assert_eq!(redeem(&mut pool, &h), Some(Resolution::Failure));
}

#[test]
fn tickets_count_up_from_zero() {
    let mut pool: WorkerPool<u8, u8> = WorkerPool::new(4);
    assert_eq!(pool.size(), 4);
    assert_eq!(pool.active_count(), 0);
    assert_eq!(pool.submit(1), Ok(0));
    assert_eq!(pool.submit(1), Ok(1));
    assert_eq!(ticket(dispatch(&mut pool, 1)), 2);
}

#[test]
fn query_pool_carries_graphql_requests() {
    let mut pool: QueryPool = WorkerPool::new(3);
    let req = juniper::http::GraphQLRequest::new("{ apiVersion }".to_string(), None, None);
    let h = dispatch(&mut pool, GraphQLData(req.clone()));
    let e = pool.start(2).unwrap();
    assert!(e.request.0 == req);
    assert!(report(&mut pool, 2, Ok("{\"data\":{}}".to_string())));
    assert_eq!(redeem(&mut pool, &h), Some(Resolution::Success("{\"data\":{}}".to_string())));
}
