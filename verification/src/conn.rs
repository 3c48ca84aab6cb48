use vstd::prelude::*;

verus! {

/// A live database session as the lifecycle logic sees it: its identity
/// (a serial number the factory assigned), whether it is still open, and
/// how many rows its pending transaction has written but not committed.
///
/// A session's uncommitted writes are visible only to that session until
/// they are committed; a rollback discards them without a trace.
#[derive(Clone, Copy, Debug, PartialEq, Eq)]
pub struct Connection {
    /// Serial number: the how-many-th connection the factory ever created.
    pub id: u64,
    /// False once the session has been closed or has died.
    pub open: bool,
    /// Rows written by the pending (uncommitted) transaction.
    pub pending: u64,
}

/// The durable state the sessions share: the rows that committed
/// transactions have made permanent.
#[derive(Clone, Copy, Debug, PartialEq, Eq)]
pub struct Database {
    /// Rows visible to every session.
    pub committed: u64,
}

impl Connection {
    /// A session is clean when no transaction is pending: only such a
    /// session may be handed to a new caller.
    pub open spec fn is_clean(self) -> bool {
        self.pending == 0
    }

    /// Write rows inside the session's transaction without committing.
    pub fn write(&mut self, rows: u64)
        requires
            old(self).open,
            old(self).pending + rows <= u64::MAX,
        ensures
            *final(self) == (Connection { pending: (old(self).pending + rows) as u64, ..*old(self) }),
    {
        self.pending = self.pending + rows;
    }

    /// Commit the pending transaction: its writes become durable and the
    /// session is clean again.
    pub fn commit(&mut self, db: &mut Database)
        requires
            old(self).open,
            old(db).committed + old(self).pending <= u64::MAX,
        ensures
            *final(db) == (Database { committed: (old(db).committed + old(self).pending) as u64 }),
            *final(self) == (Connection { pending: 0, ..*old(self) }),
            final(self).is_clean(),
    {
        db.committed = db.committed + self.pending;
        self.pending = 0;
    }

    /// Roll back whatever transaction is pending. When none is, this is a
    /// no-op, not an error: the session ends up clean either way.
    pub fn rollback(&mut self)
        ensures
            *final(self) == (Connection { pending: 0, ..*old(self) }),
            final(self).is_clean(),
    {
        self.pending = 0;
    }

    /// The session goes away (network drop, server-side kill); its pending
    /// writes will never be committed.
    pub fn close(&mut self)
        ensures
            *final(self) == (Connection { open: false, ..*old(self) }),
    {
        self.open = false;
    }

    /// How many rows a count over the shared table returns when this
    /// session runs it: the committed rows plus this session's own
    /// uncommitted writes.
    pub fn visible_rows(&self, db: &Database) -> (rows: u64)
        requires
            self.open,
            db.committed + self.pending <= u64::MAX,
        ensures
            rows == db.committed + self.pending,
    {
        db.committed + self.pending
    }
}

} // verus!
