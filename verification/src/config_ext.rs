use vstd::prelude::*;
use crate::builder::{BuildError, PoolBuilder};
use crate::policy::{
    PoolPolicy, DEFAULT_CREATE_TIMEOUT_MS, DEFAULT_RECYCLE_TIMEOUT_MS, DEFAULT_UNITS,
    DEFAULT_WAIT_TIMEOUT_MS,
};
use crate::pool::Pool;

verus! {

/// Creating pools directly from a connection configuration, without going
/// through the builder by hand.
pub trait ConfigExt: Sized {
    /// A pool with every setting at its default. Such a build always
    /// succeeds, and the pool starts empty.
    fn into_pool(self) -> (r: Result<Pool, BuildError>)
        ensures
            r is Ok,
            r matches Ok(p) ==> {
                &&& p.policy == (PoolPolicy {
                    capacity: (4 * DEFAULT_UNITS) as usize,
                    wait_timeout: Some(DEFAULT_WAIT_TIMEOUT_MS),
                    create_timeout: Some(DEFAULT_CREATE_TIMEOUT_MS),
                    recycle_timeout: Some(DEFAULT_RECYCLE_TIMEOUT_MS),
                })
                &&& p@.size() == 0
                &&& p@.idle.len() == 0
                &&& p@.created == 0
                &&& p@.wf()
            },
    ;

    /// A pool with the given capacity and default timeouts. It fails
    /// exactly when the capacity leaves room for no connection, and the
    /// pool starts empty.
    fn into_pool_with_size(self, max_size: usize) -> (r: Result<Pool, BuildError>)
        ensures
            r is Ok <==> max_size >= 1,
            r matches Ok(p) ==> {
                &&& p.policy == (PoolPolicy {
                    capacity: max_size,
                    wait_timeout: Some(DEFAULT_WAIT_TIMEOUT_MS),
                    create_timeout: Some(DEFAULT_CREATE_TIMEOUT_MS),
                    recycle_timeout: Some(DEFAULT_RECYCLE_TIMEOUT_MS),
                })
                &&& p@.size() == 0
                &&& p@.idle.len() == 0
                &&& p@.created == 0
                &&& p@.wf()
            },
    ;
}

impl ConfigExt for oracle_rs::Config {
    /// Equivalent to building with no overrides: the pool is bound to
    /// this very configuration and starts with nothing in creation.
    fn into_pool(self) -> (r: Result<Pool, BuildError>)
        ensures
            r matches Ok(p) ==> p.manager.config == self && p@.creating == 0,
    {
        PoolBuilder::new(self).build()
    }

    /// Equivalent to building with only the capacity overridden: the pool
    /// is bound to this very configuration and starts with nothing in
    /// creation.
    fn into_pool_with_size(self, max_size: usize) -> (r: Result<Pool, BuildError>)
        ensures
            r matches Ok(p) ==> p.manager.config == self && p@.creating == 0,
    {
        PoolBuilder::new(self).max_size(max_size).build()
    }
}

} // verus!
