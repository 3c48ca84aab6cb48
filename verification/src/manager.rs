use vstd::prelude::*;
use crate::conn::Connection;

verus! {

/// Why a returned connection was refused for reuse.
#[derive(Clone, Copy, Debug, PartialEq, Eq)]
pub enum RecycleFailure {
    /// The connection reported itself already closed.
    Closed,
    /// The health probe (ping) failed; the backend is the cause.
    Backend,
}

/// The reuse verdict for a returned connection, given the two facts the
/// driver reports: whether the connection is closed, and whether the
/// health probe succeeded. A closed connection fails immediately; an open
/// one is probed, and only a successful probe makes it eligible for reuse.
pub open spec fn recycle_verdict(closed: bool, probe_ok: bool) -> Result<(), RecycleFailure> {
    if closed {
        Err(RecycleFailure::Closed)
    } else if !probe_ok {
        Err(RecycleFailure::Backend)
    } else {
        Ok(())
    }
}

/// The validator's decision from plain facts, for an embedding that runs
/// the liveness check and the probe against a real driver and only needs
/// the verdict.
pub fn recycle_decision(closed: bool, probe_ok: bool) -> (r: Result<(), RecycleFailure>)
    ensures
        r == recycle_verdict(closed, probe_ok),
{
    if closed {
        Err(RecycleFailure::Closed)
    } else if !probe_ok {
        Err(RecycleFailure::Backend)
    } else {
        Ok(())
    }
}

/// Creates fresh Oracle sessions on demand and validates returned ones
/// before they may be reused.
#[derive(Debug)]
pub struct OracleConnectionManager {
    /// How to reach the database; immutable for the pool's lifetime.
    pub config: oracle_rs::Config,
}

impl OracleConnectionManager {
    /// Bind the factory to a connection configuration.
    pub fn new(config: oracle_rs::Config) -> (m: Self)
        ensures
            m.config == config,
    {
        Self { config }
    }

    /// Produce the `id`-th connection: a fresh session is open and clean,
    /// with no transaction pending.
    ///
    /// Establishing the real session is the embedding's work; this is the
    /// state every successful establishment starts from.
    pub fn create(&self, id: u64) -> (c: Connection)
        ensures
            c == (Connection { id, open: true, pending: 0 }),
            c.is_clean(),
    {
        Connection { id, open: true, pending: 0 }
    }

    /// Validate a returned connection, in order: a closed connection is
    /// refused at once and left untouched; otherwise any pending
    /// transaction is rolled back (a no-op when none is pending, and run
    /// unconditionally), and the probe's outcome decides reuse. Whatever
    /// the verdict, an open connection comes out clean.
    pub fn recycle(&self, conn: &mut Connection, probe_ok: bool) -> (r: Result<(), RecycleFailure>)
        ensures
            r == recycle_verdict(!old(conn).open, probe_ok),
            !old(conn).open ==> *final(conn) == *old(conn),
            old(conn).open ==> *final(conn) == (Connection { pending: 0, ..*old(conn) }),
            old(conn).open ==> final(conn).is_clean(),
            r is Ok ==> old(conn).open && final(conn).is_clean() && final(conn).open,
    {
        if !conn.open {
            return Err(RecycleFailure::Closed);
        }
        conn.rollback();
        if probe_ok {
            Ok(())
        } else {
            Err(RecycleFailure::Backend)
        }
    }
}

} // verus!
