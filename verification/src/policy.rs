use vstd::prelude::*;

verus! {

/// Hardware unit count assumed when detection is unavailable.
pub const DEFAULT_UNITS: usize = 4;

/// Default bound on waiting for a free slot, in milliseconds.
pub const DEFAULT_WAIT_TIMEOUT_MS: u64 = 30_000;

/// Default bound on establishing a new connection, in milliseconds.
pub const DEFAULT_CREATE_TIMEOUT_MS: u64 = 30_000;

/// Default bound on the return-time health check, in milliseconds.
pub const DEFAULT_RECYCLE_TIMEOUT_MS: u64 = 5_000;

/// The capacity a pool gets when none is chosen: four connections per
/// detected hardware execution unit, or four per assumed unit when
/// detection is unavailable (`None`), reports zero, or would overflow.
/// The result is always at least one.
pub fn default_capacity(detected_units: Option<usize>) -> (c: usize)
    ensures
        c == (match detected_units {
            Some(u) => if 1 <= u && u <= usize::MAX / 4 {
                4 * (u as int)
            } else {
                4 * (DEFAULT_UNITS as int)
            },
            None => 4 * (DEFAULT_UNITS as int),
        }),
        c >= 4,
{
    match detected_units {
        Some(u) if 1 <= u && u <= usize::MAX / 4 => 4 * u,
        _ => 4 * DEFAULT_UNITS,
    }
}

/// The immutable policy a pool is built with: how many connections may
/// exist at once, and how long to wait for a slot, for a new connection,
/// and for the return-time health check. `None` means wait indefinitely.
/// Timeouts are in milliseconds.
#[derive(Clone, Copy, Debug, PartialEq, Eq)]
pub struct PoolPolicy {
    /// Maximum number of concurrent connections; at least one.
    pub capacity: usize,
    /// Bound on waiting for a free slot; `None` waits indefinitely.
    pub wait_timeout: Option<u64>,
    /// Bound on establishing a new connection; `None` waits indefinitely.
    pub create_timeout: Option<u64>,
    /// Bound on the return-time health check; `None` waits indefinitely.
    pub recycle_timeout: Option<u64>,
}

impl PoolPolicy {
    /// A policy the engine accepts: room for at least one connection.
    pub open spec fn wf(self) -> bool {
        self.capacity >= 1
    }
}

} // verus!
