//! The in-memory state of a nullifier database.

use std::collections::HashSet;
use vstd::prelude::*;
use crate::error::{IoErrorKind, IoFailure, NullifierError};
use crate::records::{lemma_records_append, lemma_records_empty, records};
use crate::scalar_set::{set_contains, set_insert, set_len};

verus! {

/// A nullifier: 32 bytes, stored as they are.
pub type Scalar = [u8; 32];

/// The state of a nullifier database: the set of nullifiers it holds, the
/// path of its file, whether it holds the exclusive lock on that file, and
/// (as ghost state) the bytes of that file as this database has read and
/// appended them.
pub struct NullifierDB {
    map: HashSet<Scalar>,
    db_path: String,
    lock_acquired: bool,
    file: Ghost<Seq<u8>>,
}

/// The error that a failed attempt to take the lock on the file at `path`
/// stands for: `DatabaseLocked` when another holder made the attempt wait,
/// `LockAcquisitionError` otherwise.
pub open spec fn is_lock_error(failure: IoFailure, path: Seq<char>, e: NullifierError) -> bool {
    if failure.kind == IoErrorKind::WouldBlock {
        e matches NullifierError::DatabaseLocked { path: p } && p@ == path
    } else {
        e matches NullifierError::LockAcquisitionError { source, path: p } && source == failure
            && p@ == path
    }
}

/// The error that a failed attempt to release the lock on the file at
/// `path` stands for.
pub open spec fn is_unlock_error(failure: IoFailure, path: Seq<char>, e: NullifierError) -> bool {
    e matches NullifierError::LockReleaseError { source, path: p } && source == failure && p@ == path
}

impl NullifierDB {
    /// The nullifiers the database holds.
    pub closed spec fn entries(&self) -> Set<Scalar> {
        self.map@
    }

    /// The bytes of the database file, as read and appended by this database.
    pub closed spec fn file(&self) -> Seq<u8> {
        self.file@
    }

    /// The path of the database file.
    pub closed spec fn path(&self) -> Seq<char> {
        self.db_path@
    }

    /// Whether the database holds the exclusive lock on its file.
    pub closed spec fn locked(&self) -> bool {
        self.lock_acquired
    }

    /// Well-formedness: the nullifiers are exactly the records of the file,
    /// and the file holds only complete records.
    pub closed spec fn wf(&self) -> bool {
        &&& self.map@.finite()
        &&& self.map@ == records(self.file@)
        &&& self.file@.len() % 32 == 0
    }

    /// What well-formedness means, for use outside this module.
    pub proof fn lemma_wf(&self)
        requires
            self.wf(),
        ensures
            self.entries().finite(),
            self.entries() == records(self.file()),
            self.file().len() % 32 == 0,
    {
    }

    /// An empty database for the new, empty file at `path`; it holds no
    /// lock yet.
    pub fn new(path: String) -> (db: NullifierDB)
        ensures
            db.wf(),
            db.entries() == Set::<Scalar>::empty(),
            db.file() == Seq::<u8>::empty(),
            db.path() == path@,
            !db.locked(),
    {
        proof {
            lemma_records_empty();
        }
        NullifierDB {
            map: HashSet::new(),
            db_path: path,
            lock_acquired: false,
            file: Ghost(Seq::empty()),
        }
    }

    /// Count the number of entries.
    pub fn count(&self) -> (n: usize)
        requires
            self.wf(),
        ensures
            n == self.entries().len(),
    {
        set_len(&self.map)
    }

    /// Checks if a nullifier exists in the database.
    pub fn contains(&self, scalar: &Scalar) -> (found: bool)
        ensures
            found == self.entries().contains(*scalar),
    {
        set_contains(&self.map, scalar)
    }

    /// Returns the number of nullifiers in the database.
    pub fn len(&self) -> (n: usize)
        requires
            self.wf(),
        ensures
            n == self.entries().len(),
    {
        set_len(&self.map)
    }

    /// Checks if the database is empty.
    pub fn is_empty(&self) -> (empty: bool)
        requires
            self.wf(),
        ensures
            empty == (self.entries().len() == 0),
            empty == (self.entries() == Set::<Scalar>::empty()),
    {
        proof {
            if self.map@.len() == 0 {
                self.map@.lemma_len0_is_empty();
            }
        }
        self.map.is_empty()
    }

    /// Inserts a nullifier. Returns whether it was new; a new nullifier's
    /// bytes are then to be appended to the file, and the ghost file grows
    /// by them. An existing one changes nothing.
    pub fn insert(&mut self, scalar: Scalar) -> (added: bool)
        requires
            old(self).wf(),
        ensures
            final(self).wf(),
            added == !old(self).entries().contains(scalar),
            final(self).entries() == old(self).entries().insert(scalar),
            final(self).file() == (if added { old(self).file() + scalar@ } else { old(self).file() }),
            final(self).path() == old(self).path(),
            final(self).locked() == old(self).locked(),
    {
        let added = set_insert(&mut self.map, scalar);
        if added {
            proof {
                lemma_records_append(self.file@, scalar);
            }
            self.file = Ghost(self.file@ + scalar@);
        } else {
            assert(self.map@ =~= old(self).map@);
        }
        added
    }

    /// Takes in one record read back from the database file: the nullifier
    /// joins the entries and the ghost file grows by its bytes, whether or
    /// not it was already there.
    pub(crate) fn load_record(&mut self, scalar: Scalar)
        requires
            old(self).wf(),
        ensures
            final(self).wf(),
            final(self).entries() == old(self).entries().insert(scalar),
            final(self).file() == old(self).file() + scalar@,
            final(self).path() == old(self).path(),
            final(self).locked() == old(self).locked(),
    {
        set_insert(&mut self.map, scalar);
        proof {
            lemma_records_append(self.file@, scalar);
        }
        self.file = Ghost(self.file@ + scalar@);
    }

    /// A copy of the path of the database file.
    pub fn path_string(&self) -> (p: String)
        ensures
            p@ == self.path(),
    {
        self.db_path.clone()
    }

    /// Whether taking the lock needs a call to the operating system: only
    /// when the database does not hold it already.
    pub fn lock_needed(&self) -> (needed: bool)
        ensures
            needed == !self.locked(),
    {
        !self.lock_acquired
    }

    /// Records the outcome of an attempt to take the exclusive lock on the
    /// file. On success the database holds the lock; a failure leaves it
    /// without and is reported as `DatabaseLocked` when the lock is held
    /// elsewhere, as `LockAcquisitionError` otherwise.
    pub fn lock_attempted(&mut self, outcome: Result<(), IoFailure>) -> (r: Result<
        (),
        NullifierError,
    >)
        requires
            !old(self).locked(),
        ensures
            final(self).entries() == old(self).entries(),
            final(self).file() == old(self).file(),
            final(self).path() == old(self).path(),
            final(self).wf() == old(self).wf(),
            match outcome {
                Ok(()) => r is Ok && final(self).locked(),
                Err(failure) => {
                    &&& !final(self).locked()
                    &&& r matches Err(e) && is_lock_error(failure, old(self).path(), e)
                },
            },
    {
        match outcome {
            Ok(()) => {
                self.lock_acquired = true;
                Ok(())
            },
            Err(failure) => {
                if failure.kind == IoErrorKind::WouldBlock {
                    Err(NullifierError::DatabaseLocked { path: self.db_path.clone() })
                } else {
                    Err(
                        NullifierError::LockAcquisitionError {
                            source: failure,
                            path: self.db_path.clone(),
                        },
                    )
                }
            },
        }
    }

    /// Whether releasing the lock needs a call to the operating system:
    /// only when the database holds it.
    pub fn unlock_needed(&self) -> (needed: bool)
        ensures
            needed == self.locked(),
    {
        self.lock_acquired
    }

    /// Records the outcome of an attempt to release the lock. On success the
    /// database no longer holds it; on failure it still does, and the failure
    /// is reported as `LockReleaseError`.
    pub fn unlock_attempted(&mut self, outcome: Result<(), IoFailure>) -> (r: Result<
        (),
        NullifierError,
    >)
        requires
            old(self).locked(),
        ensures
            final(self).entries() == old(self).entries(),
            final(self).file() == old(self).file(),
            final(self).path() == old(self).path(),
            final(self).wf() == old(self).wf(),
            match outcome {
                Ok(()) => r is Ok && !final(self).locked(),
                Err(failure) => {
                    &&& final(self).locked()
                    &&& r matches Err(e) && is_unlock_error(failure, old(self).path(), e)
                },
            },
    {
        match outcome {
            Ok(()) => {
                self.lock_acquired = false;
                Ok(())
            },
            Err(failure) => Err(
                NullifierError::LockReleaseError { source: failure, path: self.db_path.clone() },
            ),
        }
    }
}

} // verus!
