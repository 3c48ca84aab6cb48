use vstd::prelude::*;
use crate::conn::Connection;
use crate::manager::{OracleConnectionManager, RecycleFailure, recycle_verdict};
use crate::policy::PoolPolicy;

verus! {

/// What a checkout request does next, decided from the pool's accounting
/// alone. The engine suspends a caller on `StartCreate` until the factory
/// finishes, and on `Exhausted` until a slot frees or the wait timeout
/// expires, which fails the request with a timeout error.
#[derive(Clone, Copy, Debug, PartialEq, Eq)]
pub enum CheckoutPlan {
    /// An idle, validated connection is handed out at once.
    UseIdle(Connection),
    /// A slot under capacity was reserved; the factory must now create.
    StartCreate,
    /// Every slot is taken and nothing is idle: the caller must wait.
    Exhausted,
}

/// Observability snapshot: how many connections exist and how many of
/// them sit idle. It has no behavioral effect.
#[derive(Clone, Copy, Debug, PartialEq, Eq)]
pub struct PoolStatus {
    /// Connections currently in existence, idle or checked out.
    pub size: usize,
    /// Connections idle and ready to be handed out.
    pub available: usize,
}

/// The pool's accounting, abstractly: the policy's capacity, the idle
/// connections in return order, how many connections are checked out, how
/// many slots are reserved for creations still underway, and how many
/// connections the factory ever completed.
pub struct PoolView {
    pub capacity: int,
    pub idle: Seq<Connection>,
    pub borrowed: int,
    pub creating: int,
    pub created: int,
}

impl PoolView {
    /// Connections in existence: idle ones plus checked-out ones.
    pub open spec fn size(self) -> int {
        self.idle.len() + self.borrowed
    }

    /// Occupied slots: existing connections plus reserved creations.
    pub open spec fn slots(self) -> int {
        self.size() + self.creating
    }

    /// The accounting invariant every reachable pool state satisfies:
    /// occupied slots never exceed capacity, counts are non-negative,
    /// serial numbers stay within the machine's range, and every idle
    /// connection is open, clean, and one the factory created.
    pub open spec fn wf(self) -> bool {
        &&& self.capacity >= 1
        &&& self.borrowed >= 0
        &&& self.creating >= 0
        &&& 0 <= self.created <= u64::MAX
        &&& self.slots() <= self.capacity
        &&& forall|i: int|
            0 <= i < self.idle.len() ==> {
                &&& (#[trigger] self.idle[i]).open
                &&& self.idle[i].is_clean()
                &&& self.idle[i].id < self.created
            }
    }
}

/// The step a checkout request takes: reuse the most recently returned
/// idle connection if any, else reserve a slot for a creation if one is
/// free, else leave the state alone and make the caller wait.
pub open spec fn plan_checkout_spec(v: PoolView) -> (PoolView, CheckoutPlan) {
    if v.idle.len() > 0 {
        (
            PoolView { idle: v.idle.drop_last(), borrowed: v.borrowed + 1, ..v },
            CheckoutPlan::UseIdle(v.idle.last()),
        )
    } else if v.slots() < v.capacity {
        (PoolView { creating: v.creating + 1, ..v }, CheckoutPlan::StartCreate)
    } else {
        (v, CheckoutPlan::Exhausted)
    }
}

/// The step taken when the factory finishes a reserved creation: the
/// fresh connection takes the next serial number and goes straight to the
/// waiting caller.
pub open spec fn complete_create_spec(v: PoolView) -> (PoolView, Connection) {
    (
        PoolView { creating: v.creating - 1, borrowed: v.borrowed + 1, created: v.created + 1, ..v },
        Connection { id: v.created as u64, open: true, pending: 0 },
    )
}

/// The step taken when a reserved creation fails or its caller abandons
/// the wait: the reservation is given back and nothing else changes, so
/// no connection the caller will never use comes into existence.
pub open spec fn abort_create_spec(v: PoolView) -> PoolView {
    PoolView { creating: v.creating - 1, ..v }
}

/// The step a returned connection takes: the validator's verdict decides
/// whether it joins the idle set (rolled back, hence clean) or is
/// discarded. Either way it is no longer checked out, and the verdict is
/// never surfaced to the caller that released it.
pub open spec fn release_spec(v: PoolView, c: Connection, probe_ok: bool) -> (PoolView, Result<
    (),
    RecycleFailure,
>) {
    let verdict = recycle_verdict(!c.open, probe_ok);
    if verdict is Ok {
        (
            PoolView {
                idle: v.idle.push(Connection { pending: 0, ..c }),
                borrowed: v.borrowed - 1,
                ..v
            },
            verdict,
        )
    } else {
        (PoolView { borrowed: v.borrowed - 1, ..v }, verdict)
    }
}

/// The pool handle: the factory/validator pair bound to a policy,
/// together with the engine's accounting. Callers drive it through
/// `plan_checkout`, `complete_create` or `abort_create`, and `release`;
/// every step keeps the accounting well-formed.
#[derive(Debug)]
pub struct Pool {
    /// Creates and validates connections.
    pub manager: OracleConnectionManager,
    /// Capacity and timeouts, immutable after the build.
    pub policy: PoolPolicy,
    /// Idle validated connections, most recently returned last.
    pub idle: Vec<Connection>,
    /// Connections currently checked out to callers.
    pub borrowed: usize,
    /// Slots reserved for connection creations still underway.
    pub creating: usize,
    /// Connections the factory ever completed; also the next serial number.
    pub created: u64,
}

impl View for Pool {
    type V = PoolView;

    open spec fn view(&self) -> PoolView {
        PoolView {
            capacity: self.policy.capacity as int,
            idle: self.idle@,
            borrowed: self.borrowed as int,
            creating: self.creating as int,
            created: self.created as int,
        }
    }
}

impl Pool {
    /// Report size and idle count. Immediately after a build both are
    /// zero: building creates no connection.
    pub fn status(&self) -> (s: PoolStatus)
        requires
            self@.wf(),
        ensures
            s.size == self@.size(),
            s.available == self@.idle.len(),
    {
        PoolStatus { size: self.idle.len() + self.borrowed, available: self.idle.len() }
    }

    /// Decide what a checkout request does next; see `plan_checkout_spec`.
    pub fn plan_checkout(&mut self) -> (p: CheckoutPlan)
        requires
            old(self)@.wf(),
        ensures
            (final(self)@, p) == plan_checkout_spec(old(self)@),
            final(self)@.wf(),
            final(self).policy == old(self).policy,
            final(self).manager == old(self).manager,
            p matches CheckoutPlan::UseIdle(c) ==> c.open && c.is_clean(),
    {
        if self.idle.len() > 0 {
            let c = self.idle.pop().unwrap();
            self.borrowed = self.borrowed + 1;
            CheckoutPlan::UseIdle(c)
        } else if self.borrowed + self.creating < self.policy.capacity {
            self.creating = self.creating + 1;
            CheckoutPlan::StartCreate
        } else {
            CheckoutPlan::Exhausted
        }
    }

    /// The factory finished a reserved creation; see `complete_create_spec`.
    pub fn complete_create(&mut self) -> (c: Connection)
        requires
            old(self)@.wf(),
            old(self)@.creating >= 1,
            old(self)@.created < u64::MAX,
        ensures
            (final(self)@, c) == complete_create_spec(old(self)@),
            final(self)@.wf(),
            final(self).policy == old(self).policy,
            final(self).manager == old(self).manager,
            c.open && c.is_clean(),
            c.id == old(self)@.created,
            final(self)@.created == old(self)@.created + 1,
    {
        let c = self.manager.create(self.created);
        self.creating = self.creating - 1;
        self.borrowed = self.borrowed + 1;
        self.created = self.created + 1;
        c
    }

    /// A reserved creation failed or was abandoned; see `abort_create_spec`.
    pub fn abort_create(&mut self)
        requires
            old(self)@.wf(),
            old(self)@.creating >= 1,
        ensures
            final(self)@ == abort_create_spec(old(self)@),
            final(self)@.wf(),
            final(self).policy == old(self).policy,
            final(self).manager == old(self).manager,
    {
        self.creating = self.creating - 1;
    }

    /// A caller returned a connection it had checked out; the validator
    /// decides reuse or discard. See `release_spec`.
    pub fn release(&mut self, conn: Connection, probe_ok: bool) -> (r: Result<(), RecycleFailure>)
        requires
            old(self)@.wf(),
            old(self)@.borrowed >= 1,
            conn.id < old(self)@.created,
        ensures
            (final(self)@, r) == release_spec(old(self)@, conn, probe_ok),
            final(self)@.wf(),
            final(self).policy == old(self).policy,
            final(self).manager == old(self).manager,
            r == recycle_verdict(!conn.open, probe_ok),
            r is Ok ==> final(self)@.size() == old(self)@.size(),
            r is Err ==> final(self)@.size() == old(self)@.size() - 1,
    {
        let mut conn = conn;
        let verdict = self.manager.recycle(&mut conn, probe_ok);
        self.borrowed = self.borrowed - 1;
        if verdict.is_ok() {
            self.idle.push(conn);
        }
        verdict
    }
}

} // verus!
