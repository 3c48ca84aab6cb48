use vstd::prelude::*;
use crate::manager::OracleConnectionManager;
use crate::policy::{
    PoolPolicy, DEFAULT_CREATE_TIMEOUT_MS, DEFAULT_RECYCLE_TIMEOUT_MS, DEFAULT_UNITS,
    DEFAULT_WAIT_TIMEOUT_MS,
};
use crate::pool::Pool;

verus! {

/// The engine rejected the policy at construction time: there was no room
/// for even one connection. Fatal only to this build call; the database is
/// never contacted.
#[derive(Clone, Copy, Debug, PartialEq, Eq)]
pub struct BuildError;

impl BuildError {
    /// A description of the failure, for callers that report it.
    pub fn message(&self) -> (m: &'static str)
        ensures
            m@ == "failed to build connection pool: capacity must be at least 1"@,
    {
        "failed to build connection pool: capacity must be at least 1"
    }
}

/// Accumulates a pool policy, every setting independently overridable,
/// then binds it with the factory/validator into a pool handle.
///
/// Defaults: capacity is four connections per assumed hardware unit
/// (detection is the embedder's business: pass
/// `crate::policy::default_capacity` of the detected count to `max_size`);
/// waiting and creation are bounded by thirty seconds each, the health
/// check by five. Passing `None` to a timeout setter opts in to waiting
/// indefinitely; it is kept verbatim, never coerced back to a default.
pub struct PoolBuilder {
    /// How to reach the database.
    pub config: oracle_rs::Config,
    /// Maximum number of concurrent connections.
    pub max_size: usize,
    /// Bound on waiting for a free slot, in milliseconds; `None` is unbounded.
    pub wait_timeout: Option<u64>,
    /// Bound on establishing a connection, in milliseconds; `None` is unbounded.
    pub create_timeout: Option<u64>,
    /// Bound on the return-time health check, in milliseconds; `None` is unbounded.
    pub recycle_timeout: Option<u64>,
}

impl PoolBuilder {
    /// The policy this builder denotes: each setting carried over
    /// verbatim, including any explicit opt-out of a timeout.
    pub open spec fn policy_of(self) -> PoolPolicy {
        PoolPolicy {
            capacity: self.max_size,
            wait_timeout: self.wait_timeout,
            create_timeout: self.create_timeout,
            recycle_timeout: self.recycle_timeout,
        }
    }

    /// Start from the documented defaults, bound to a configuration.
    pub fn new(config: oracle_rs::Config) -> (b: PoolBuilder)
        ensures
            b.config == config,
            b.max_size == 4 * DEFAULT_UNITS,
            b.wait_timeout == Some(DEFAULT_WAIT_TIMEOUT_MS),
            b.create_timeout == Some(DEFAULT_CREATE_TIMEOUT_MS),
            b.recycle_timeout == Some(DEFAULT_RECYCLE_TIMEOUT_MS),
    {
        PoolBuilder {
            config,
            max_size: 4 * DEFAULT_UNITS,
            wait_timeout: Some(DEFAULT_WAIT_TIMEOUT_MS),
            create_timeout: Some(DEFAULT_CREATE_TIMEOUT_MS),
            recycle_timeout: Some(DEFAULT_RECYCLE_TIMEOUT_MS),
        }
    }

    /// Override the maximum number of concurrent connections.
    pub fn max_size(self, size: usize) -> (b: Self)
        ensures
            b == (PoolBuilder { max_size: size, ..self }),
    {
        PoolBuilder { max_size: size, ..self }
    }

    /// Override the slot-wait bound; `None` waits indefinitely.
    pub fn wait_timeout(self, timeout: Option<u64>) -> (b: Self)
        ensures
            b == (PoolBuilder { wait_timeout: timeout, ..self }),
    {
        PoolBuilder { wait_timeout: timeout, ..self }
    }

    /// Override the creation bound; `None` waits indefinitely.
    pub fn create_timeout(self, timeout: Option<u64>) -> (b: Self)
        ensures
            b == (PoolBuilder { create_timeout: timeout, ..self }),
    {
        PoolBuilder { create_timeout: timeout, ..self }
    }

    /// Override the health-check bound; `None` waits indefinitely.
    pub fn recycle_timeout(self, timeout: Option<u64>) -> (b: Self)
        ensures
            b == (PoolBuilder { recycle_timeout: timeout, ..self }),
    {
        PoolBuilder { recycle_timeout: timeout, ..self }
    }

    /// Bind the accumulated policy with the factory/validator into a pool
    /// handle. This creates no connection: the pool starts empty, its size
    /// and idle count zero, and the first establishment happens only when
    /// a connection is requested — a build succeeds even while the
    /// database is unreachable. It fails exactly when the policy leaves
    /// room for no connection at all.
    pub fn build(self) -> (r: Result<Pool, BuildError>)
        ensures
            r is Ok <==> self.max_size >= 1,
            r matches Ok(p) ==> {
                &&& p.policy == self.policy_of()
                &&& p.manager.config == self.config
                &&& p@.size() == 0
                &&& p@.idle.len() == 0
                &&& p@.borrowed == 0
                &&& p@.creating == 0
                &&& p@.created == 0
                &&& p@.wf()
            },
    {
        if self.max_size < 1 {
            return Err(BuildError);
        }
        let policy = PoolPolicy {
            capacity: self.max_size,
            wait_timeout: self.wait_timeout,
            create_timeout: self.create_timeout,
            recycle_timeout: self.recycle_timeout,
        };
        let manager = OracleConnectionManager::new(self.config);
        Ok(Pool { manager, policy, idle: Vec::new(), borrowed: 0, creating: 0, created: 0 })
    }
}

} // verus!
