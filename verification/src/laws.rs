use vstd::prelude::*;
use crate::builder::PoolBuilder;
use crate::conn::Connection;
use crate::pool::{
    abort_create_spec, complete_create_spec, plan_checkout_spec, release_spec, CheckoutPlan,
    PoolView,
};

verus! {

/// Whatever a build makes of a builder, every setting goes over
/// verbatim: in particular an explicit "no timeout" override — waiting
/// indefinitely — is kept as such, never coerced back to a default.
pub proof fn lemma_overrides_preserved_verbatim(b: PoolBuilder)
    ensures
        b.policy_of().capacity == b.max_size,
        b.policy_of().wait_timeout == b.wait_timeout,
        b.policy_of().create_timeout == b.create_timeout,
        b.policy_of().recycle_timeout == b.recycle_timeout,
        b.wait_timeout is None ==> b.policy_of().wait_timeout is None,
        b.create_timeout is None ==> b.policy_of().create_timeout is None,
        b.recycle_timeout is None ==> b.policy_of().recycle_timeout is None,
{
}

/// In a well-formed pool, no more than `capacity` connections exist at
/// once, even counting the slots reserved for creations still underway.
pub proof fn lemma_capacity_never_exceeded(v: PoolView)
    requires
        v.wf(),
    ensures
        v.size() <= v.capacity,
        v.slots() <= v.capacity,
{
}

/// Every lifecycle step keeps the pool well-formed — so, by
/// `lemma_capacity_never_exceeded`, no sequence of checkouts, creations,
/// aborted creations and releases ever pushes the pool past its capacity.
pub proof fn lemma_steps_preserve_wf(v: PoolView, c: Connection, probe_ok: bool)
    requires
        v.wf(),
    ensures
        plan_checkout_spec(v).0.wf(),
        v.creating >= 1 && v.created < u64::MAX ==> complete_create_spec(v).0.wf(),
        v.creating >= 1 ==> abort_create_spec(v).wf(),
        v.borrowed >= 1 && c.id < v.created ==> release_spec(v, c, probe_ok).0.wf(),
{
}

/// A request that finds every slot taken and nothing idle changes
/// nothing: the caller waits, and when the wait bound expires the request
/// fails with a timeout error, with no side effect on the pool.
pub proof fn lemma_exhausted_request_waits(v: PoolView)
    requires
        v.wf(),
        v.idle.len() == 0,
        v.slots() == v.capacity,
    ensures
        plan_checkout_spec(v).0 == v,
        plan_checkout_spec(v).1 == CheckoutPlan::Exhausted,
{
}

/// The first request against an empty pool with room for a connection
/// creates exactly one — the count of connections ever created rises by
/// one and the pool holds one connection — and releasing it without error
/// makes that same connection idle again without changing the pool's
/// size or creating anything further.
pub proof fn lemma_first_request_creates_exactly_one(v: PoolView)
    requires
        v.wf(),
        v.size() == 0,
        v.creating == 0,
        v.capacity >= 1,
        v.created < u64::MAX,
    ensures
        ({
            let (v1, plan) = plan_checkout_spec(v);
            let (v2, c) = complete_create_spec(v1);
            let (v3, r) = release_spec(v2, c, true);
            &&& plan == CheckoutPlan::StartCreate
            &&& v2.created == v.created + 1
            &&& v2.size() == 1
            &&& c.open && c.is_clean()
            &&& r is Ok
            &&& v3.size() == 1
            &&& v3.idle.len() == 1
            &&& v3.idle[0].id == c.id
            &&& v3.created == v2.created
            &&& v3.wf()
        }),
{
}

/// Whatever a checkout hands out from the idle set is open and clean: no
/// caller ever receives a connection carrying another caller's
/// transactional state.
pub proof fn lemma_handout_is_clean(v: PoolView)
    requires
        v.wf(),
    ensures
        plan_checkout_spec(v).1 matches CheckoutPlan::UseIdle(c) ==> c.open && c.is_clean(),
{
}

/// A connection released with a transaction still pending has that
/// transaction rolled back before it can be reused: the release stores it
/// clean, and the next checkout hands back the same connection with
/// nothing pending, whatever it had written before.
pub proof fn lemma_pending_rolled_back_before_reuse(v: PoolView, c: Connection)
    requires
        v.wf(),
        v.borrowed >= 1,
        v.idle.len() == 0,
        c.open,
        c.id < v.created,
    ensures
        ({
            let (v1, r) = release_spec(v, c, true);
            let (v2, plan) = plan_checkout_spec(v1);
            &&& r is Ok
            &&& v1.idle.len() == 1
            &&& plan == CheckoutPlan::UseIdle(Connection { pending: 0, ..c })
            &&& plan matches CheckoutPlan::UseIdle(h) ==> h.id == c.id && h.is_clean() && h.open
        }),
{
}

/// A connection that fails validation on release — closed, or failing its
/// health probe — is discarded, never returned to the idle set, and the
/// pool shrinks by one.
pub proof fn lemma_failed_validation_discards(v: PoolView, c: Connection, probe_ok: bool)
    requires
        v.wf(),
        v.borrowed >= 1,
        c.id < v.created,
        !c.open || !probe_ok,
    ensures
        ({
            let (v1, r) = release_spec(v, c, probe_ok);
            &&& r is Err
            &&& v1.idle == v.idle
            &&& v1.size() == v.size() - 1
            &&& v1.created == v.created
        }),
{
}

/// After a discard, the next requester does not get the failed
/// connection back: with nothing idle, its request starts a fresh
/// creation, the count of connections ever created rises, and the new
/// connection's serial number differs from the discarded one's.
pub proof fn lemma_discard_then_fresh_create(v: PoolView, c: Connection, probe_ok: bool)
    requires
        v.wf(),
        v.borrowed >= 1,
        v.idle.len() == 0,
        c.id < v.created,
        v.created < u64::MAX,
        !c.open || !probe_ok,
    ensures
        ({
            let (v1, r) = release_spec(v, c, probe_ok);
            let (v2, plan) = plan_checkout_spec(v1);
            let (v3, f) = complete_create_spec(v2);
            &&& r is Err
            &&& plan == CheckoutPlan::StartCreate
            &&& v3.created == v.created + 1
            &&& f.id != c.id
            &&& v3.wf()
        }),
{
}

} // verus!
