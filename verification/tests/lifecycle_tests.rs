//! Connection lifecycle: lazy creation, reuse, rollback on return,
//! discard on failed validation, and the capacity bound.

use deadpool_oracle::manager::recycle_decision;
use deadpool_oracle::{CheckoutPlan, Connection, Database, PoolBuilder, RecycleFailure};
use oracle_rs::Config;

fn small_pool(capacity: usize) -> deadpool_oracle::Pool {
    let config = Config::new("localhost", 1521, "FREEPDB1", "test", "test");
    PoolBuilder::new(config).max_size(capacity).build().unwrap()
}

#[test]
fn build_creates_no_connection() {
    let pool = small_pool(3);
    let status = pool.status();
    assert_eq!(status.size, 0);
    assert_eq!(status.available, 0);
    assert_eq!(pool.created, 0);
}

#[test]
fn first_request_creates_exactly_one() {
    let mut pool = small_pool(2);

    let plan = pool.plan_checkout();
    assert_eq!(plan, CheckoutPlan::StartCreate);
    let conn = pool.complete_create();
    assert_eq!(pool.created, 1);
    assert_eq!(pool.status().size, 1);
    assert_eq!(pool.status().available, 0);
    assert!(conn.open);
    assert_eq!(conn.pending, 0);

    // Releasing without error makes it idle and leaves the size alone.
    assert_eq!(pool.release(conn, true), Ok(()));
    assert_eq!(pool.status().size, 1);
    assert_eq!(pool.status().available, 1);
    assert_eq!(pool.created, 1);
}

#[test]
fn released_connection_is_reused() {
    let mut pool = small_pool(1);

    let plan = pool.plan_checkout();
    assert_eq!(plan, CheckoutPlan::StartCreate);
    let conn = pool.complete_create();
    let first_id = conn.id;
    assert_eq!(pool.release(conn, true), Ok(()));

    match pool.plan_checkout() {
        CheckoutPlan::UseIdle(again) => {
            assert_eq!(again.id, first_id);
            assert_eq!(again.pending, 0);
        }
        other => panic!("expected reuse, got {:?}", other),
    }
    // Only one connection was ever created.
    assert_eq!(pool.created, 1);
}

#[test]
fn pending_transaction_is_rolled_back_on_release() {
    // Capacity one: a caller writes without committing and releases; the
    // next caller gets the same connection and sees no trace of the write.
    let mut db = Database { committed: 0 };
    let mut pool = small_pool(1);

    assert_eq!(pool.plan_checkout(), CheckoutPlan::StartCreate);
    let mut conn = pool.complete_create();
    let rows_before = conn.visible_rows(&db);
    conn.write(1);
    assert_eq!(conn.visible_rows(&db), 1); // visible to the writer only
    let released_id = conn.id;
    assert_eq!(pool.release(conn, true), Ok(()));

    match pool.plan_checkout() {
        CheckoutPlan::UseIdle(next) => {
            assert_eq!(next.id, released_id);
            assert_eq!(next.pending, 0);
            assert_eq!(next.visible_rows(&db), rows_before);
        }
        other => panic!("expected reuse, got {:?}", other),
    }
    assert_eq!(db.committed, 0);
}

#[test]
fn committed_writes_survive_release() {
    let mut db = Database { committed: 0 };
    let mut pool = small_pool(1);

    assert_eq!(pool.plan_checkout(), CheckoutPlan::StartCreate);
    let mut conn = pool.complete_create();
    conn.write(2);
    conn.commit(&mut db);
    assert_eq!(pool.release(conn, true), Ok(()));

    match pool.plan_checkout() {
        CheckoutPlan::UseIdle(next) => {
            assert_eq!(next.visible_rows(&db), 2);
        }
        other => panic!("expected reuse, got {:?}", other),
    }
}

#[test]
fn failed_probe_discards_connection() {
    let mut pool = small_pool(2);

    assert_eq!(pool.plan_checkout(), CheckoutPlan::StartCreate);
    let conn = pool.complete_create();
    let failed_id = conn.id;
    assert_eq!(pool.release(conn, false), Err(RecycleFailure::Backend));
    assert_eq!(pool.status().size, 0);
    assert_eq!(pool.status().available, 0);

    // The next requester triggers a fresh creation, never the failed one.
    assert_eq!(pool.plan_checkout(), CheckoutPlan::StartCreate);
    let fresh = pool.complete_create();
    assert_ne!(fresh.id, failed_id);
    assert_eq!(pool.created, 2);
}

#[test]
fn closed_connection_is_refused_and_discarded() {
    let mut pool = small_pool(2);

    assert_eq!(pool.plan_checkout(), CheckoutPlan::StartCreate);
    let mut conn = pool.complete_create();
    conn.close();
    assert_eq!(pool.release(conn, true), Err(RecycleFailure::Closed));
    assert_eq!(pool.status().size, 0);
}

#[test]
fn capacity_bounds_concurrent_checkouts() {
    // Two slots: a third request neither creates nor reuses; it waits and
    // times out, leaving the pool untouched.
    let mut pool = small_pool(2);

    assert_eq!(pool.plan_checkout(), CheckoutPlan::StartCreate);
    let a = pool.complete_create();
    assert_eq!(pool.plan_checkout(), CheckoutPlan::StartCreate);
    let b = pool.complete_create();
    assert_eq!(pool.status().size, 2);

    assert_eq!(pool.plan_checkout(), CheckoutPlan::Exhausted);
    assert_eq!(pool.status().size, 2);
    assert_eq!(pool.created, 2);

    // A release frees the slot for the next waiter.
    assert_eq!(pool.release(a, true), Ok(()));
    match pool.plan_checkout() {
        CheckoutPlan::UseIdle(_) => {}
        other => panic!("expected reuse, got {:?}", other),
    }
    assert!(pool.status().size <= 2);
    assert_eq!(pool.release(b, true), Ok(()));
    assert!(pool.status().size <= 2);
}

#[test]
fn abandoned_creation_frees_its_slot() {
    // A caller that gives up while its connection is being created leaves
    // no connection behind and no slot leaked.
    let mut pool = small_pool(1);

    assert_eq!(pool.plan_checkout(), CheckoutPlan::StartCreate);
    pool.abort_create();
    assert_eq!(pool.status().size, 0);
    assert_eq!(pool.created, 0);

    assert_eq!(pool.plan_checkout(), CheckoutPlan::StartCreate);
    let conn = pool.complete_create();
    assert_eq!(conn.id, 0);
}

#[test]
fn recycle_decision_matches_validation_order() {
    // Closed wins over the probe; an open connection stands or falls with
    // its probe.
    assert_eq!(recycle_decision(true, true), Err(RecycleFailure::Closed));
    assert_eq!(recycle_decision(true, false), Err(RecycleFailure::Closed));
    assert_eq!(recycle_decision(false, false), Err(RecycleFailure::Backend));
    assert_eq!(recycle_decision(false, true), Ok(()));
}

#[test]
fn rollback_is_a_no_op_on_clean_connections() {
    let mut conn = Connection { id: 7, open: true, pending: 0 };
    conn.rollback();
    assert_eq!(conn, Connection { id: 7, open: true, pending: 0 });
}
