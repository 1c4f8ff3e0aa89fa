//! Recovering a database from its file: the decisions between the I/O
//! steps. The caller performs each requested action on the file and hands
//! back its outcome as an event.

use vstd::prelude::*;
use crate::db::{is_lock_error, NullifierDB, Scalar};
use crate::error::{IoErrorKind, IoFailure, NullifierError};
use crate::records::valid_prefix_len;

verus! {

/// Where a recovery stands: the step whose outcome it waits for.
#[derive(Debug, Clone, Copy, PartialEq, Eq, Structural)]
pub enum RecoveryPhase {
    /// Waits for the database file to be opened for reading and writing.
    Opening,
    /// Waits for an attempt to take the exclusive lock on the file.
    Locking,
    /// Waits for the file to be positioned at its start.
    Seeking,
    /// Waits for the file to be opened a second time, for reading.
    Reopening,
    /// Waits for the next 32-byte record to be read.
    Reading,
    /// Waits for the size of the file.
    Measuring,
    /// Waits for the file to be cut down to `target_size` bytes.
    Repairing { target_size: u64 },
    /// Waits for the file to be positioned at its end, for appending.
    Positioning,
    /// The database is recovered.
    Ready,
    /// The recovery failed; the lock, if taken, is to be released.
    Failed,
}

/// The outcome of a requested action.
#[derive(Debug)]
pub enum RecoveryEvent {
    /// The file was opened, or could not be.
    Opened(Result<(), IoFailure>),
    /// The attempt to lock the file succeeded or failed.
    LockAttempted(Result<(), IoFailure>),
    /// Positioning at the start succeeded or failed.
    SoughtStart(Result<(), IoFailure>),
    /// Reopening for reading succeeded or failed.
    Reopened(Result<(), IoFailure>),
    /// A full record was read, or reading one failed (at the end of the file,
    /// with `UnexpectedEof`).
    RecordRead(Result<Scalar, IoFailure>),
    /// The size of the file, or the failure to learn it.
    Measured(Result<u64, IoFailure>),
    /// Cutting the file down succeeded or failed.
    Truncated(Result<(), IoFailure>),
    /// Positioning at the end succeeded or failed.
    SoughtEnd(Result<(), IoFailure>),
}

/// What the caller is to do next.
#[derive(Debug)]
pub enum RecoveryAction {
    /// Take the exclusive lock on the file, without waiting.
    AcquireLock,
    /// Position the file at its start.
    SeekToStart,
    /// Open the file a second time, for reading.
    ReopenForReading,
    /// Read the next 32 bytes of the file.
    ReadRecord,
    /// Learn the size of the file.
    MeasureFile,
    /// Report the corruption in `report`, then cut the file down to
    /// `target_size` bytes.
    Truncate { report: NullifierError, target_size: u64 },
    /// Position the file at its end.
    SeekToEnd,
    /// The database is ready; take it with `into_db`.
    Finish,
    /// Release the lock if the database holds it, and fail with this error.
    Abort(NullifierError),
    /// The event did not answer the pending request; nothing changed.
    Unexpected,
}

/// An error for a failure during the operation that `context` names.
pub open spec fn is_io_error(e: NullifierError, failure: IoFailure, context: &'static str) -> bool {
    e matches NullifierError::Io { source, context: c } && source == failure && c == context
}

/// The error for a failure to open the file at `path`: `FileNotFound` when
/// it does not exist, an I/O error otherwise.
pub open spec fn is_open_error(e: NullifierError, failure: IoFailure, path: Seq<char>) -> bool {
    if failure.kind == IoErrorKind::NotFound {
        e matches NullifierError::FileNotFound { path: p } && p@ == path
    } else {
        is_io_error(e, failure, "opening database file for recovery")
    }
}

/// Two database states with the same entries, file, path and lock.
pub open spec fn same_state(a: NullifierDB, b: NullifierDB) -> bool {
    &&& a.entries() == b.entries()
    &&& a.file() == b.file()
    &&& a.path() == b.path()
    &&& a.locked() == b.locked()
}

/// A step that fails with an I/O error for the operation `context` names,
/// leaving the database as it was.
pub open spec fn aborts_with_io(
    q: RecoveryPhase,
    d: NullifierDB,
    d2: NullifierDB,
    act: RecoveryAction,
    failure: IoFailure,
    context: &'static str,
) -> bool {
    &&& q == RecoveryPhase::Failed
    &&& same_state(d, d2)
    &&& act matches RecoveryAction::Abort(e) && is_io_error(e, failure, context)
}

/// One step of a recovery: from phase `p` and database `d`, the event `ev`
/// leads to phase `q`, database `d2` and the request `act`.
pub open spec fn recovery_step(
    p: RecoveryPhase,
    d: NullifierDB,
    ev: RecoveryEvent,
    q: RecoveryPhase,
    d2: NullifierDB,
    act: RecoveryAction,
) -> bool {
    match (p, ev) {
        (RecoveryPhase::Opening, RecoveryEvent::Opened(Ok(()))) => {
            &&& q == RecoveryPhase::Locking
            &&& same_state(d, d2)
            &&& act is AcquireLock
        },
        (RecoveryPhase::Opening, RecoveryEvent::Opened(Err(failure))) => {
            &&& q == RecoveryPhase::Failed
            &&& same_state(d, d2)
            &&& act matches RecoveryAction::Abort(e) && is_open_error(e, failure, d.path())
        },
        (RecoveryPhase::Locking, RecoveryEvent::LockAttempted(Ok(()))) => {
            &&& q == RecoveryPhase::Seeking
            &&& d2.entries() == d.entries() && d2.file() == d.file() && d2.path() == d.path()
            &&& d2.locked()
            &&& act is SeekToStart
        },
        (RecoveryPhase::Locking, RecoveryEvent::LockAttempted(Err(failure))) => {
            &&& q == RecoveryPhase::Failed
            &&& same_state(d, d2)
            &&& act matches RecoveryAction::Abort(e) && is_lock_error(failure, d.path(), e)
        },
        (RecoveryPhase::Seeking, RecoveryEvent::SoughtStart(Ok(()))) => {
            &&& q == RecoveryPhase::Reopening
            &&& same_state(d, d2)
            &&& act is ReopenForReading
        },
        (RecoveryPhase::Seeking, RecoveryEvent::SoughtStart(Err(failure))) => {
            aborts_with_io(q, d, d2, act, failure, "seeking to beginning of file")
        },
        (RecoveryPhase::Reopening, RecoveryEvent::Reopened(Ok(()))) => {
            &&& q == RecoveryPhase::Reading
            &&& same_state(d, d2)
            &&& act is ReadRecord
        },
        (RecoveryPhase::Reopening, RecoveryEvent::Reopened(Err(failure))) => {
            aborts_with_io(q, d, d2, act, failure, "reopening database file for reading")
        },
        (RecoveryPhase::Reading, RecoveryEvent::RecordRead(Ok(s))) => {
            &&& q == RecoveryPhase::Reading
            &&& d2.entries() == d.entries().insert(s)
            &&& d2.file() == d.file() + s@
            &&& d2.path() == d.path() && d2.locked() == d.locked()
            &&& act is ReadRecord
        },
        (RecoveryPhase::Reading, RecoveryEvent::RecordRead(Err(failure))) => {
            if failure.kind == IoErrorKind::UnexpectedEof {
                &&& q == RecoveryPhase::Measuring
                &&& same_state(d, d2)
                &&& act is MeasureFile
            } else {
                aborts_with_io(q, d, d2, act, failure, "reading nullifiers from database file")
            }
        },
        (RecoveryPhase::Measuring, RecoveryEvent::Measured(Ok(size))) => {
            &&& same_state(d, d2)
            &&& if size % 32 != 0 {
                let target = valid_prefix_len(size as int);
                &&& q == RecoveryPhase::Repairing { target_size: target as u64 }
                &&& act matches RecoveryAction::Truncate { report, target_size }
                &&& target_size == target
                &&& report == (NullifierError::CorruptedFileSize {
                    size,
                    valid_size: target as u64,
                })
            } else {
                &&& q == RecoveryPhase::Positioning
                &&& act is SeekToEnd
            }
        },
        (RecoveryPhase::Measuring, RecoveryEvent::Measured(Err(failure))) => {
            aborts_with_io(q, d, d2, act, failure, "retrieving file metadata")
        },
        (RecoveryPhase::Repairing { target_size: _ }, RecoveryEvent::Truncated(Ok(()))) => {
            &&& q == RecoveryPhase::Positioning
            &&& same_state(d, d2)
            &&& act is SeekToEnd
        },
        (RecoveryPhase::Repairing { target_size }, RecoveryEvent::Truncated(Err(failure))) => {
            &&& q == RecoveryPhase::Failed
            &&& same_state(d, d2)
            &&& act == RecoveryAction::Abort(
                NullifierError::TruncateError { source: failure, target_size },
            )
        },
        (RecoveryPhase::Positioning, RecoveryEvent::SoughtEnd(Ok(()))) => {
            &&& q == RecoveryPhase::Ready
            &&& same_state(d, d2)
            &&& act is Finish
        },
        (RecoveryPhase::Positioning, RecoveryEvent::SoughtEnd(Err(failure))) => {
            aborts_with_io(q, d, d2, act, failure, "positioning file writer at end of file")
        },
        _ => {
            &&& q == p
            &&& same_state(d, d2)
            &&& act is Unexpected
        },
    }
}

/// An outcome that reports success: every `Ok`, and the end of the file
/// met while reading records.
pub open spec fn is_success(ev: RecoveryEvent) -> bool {
    match ev {
        RecoveryEvent::Opened(r) => r is Ok,
        RecoveryEvent::LockAttempted(r) => r is Ok,
        RecoveryEvent::SoughtStart(r) => r is Ok,
        RecoveryEvent::Reopened(r) => r is Ok,
        RecoveryEvent::RecordRead(r) => match r {
            Ok(_) => true,
            Err(f) => f.kind == IoErrorKind::UnexpectedEof,
        },
        RecoveryEvent::Measured(r) => r is Ok,
        RecoveryEvent::Truncated(r) => r is Ok,
        RecoveryEvent::SoughtEnd(r) => r is Ok,
    }
}

/// Whether `ev` is the outcome of the step that phase `p` waits for.
pub open spec fn answers(p: RecoveryPhase, ev: RecoveryEvent) -> bool {
    match p {
        RecoveryPhase::Opening => ev is Opened,
        RecoveryPhase::Locking => ev is LockAttempted,
        RecoveryPhase::Seeking => ev is SoughtStart,
        RecoveryPhase::Reopening => ev is Reopened,
        RecoveryPhase::Reading => ev is RecordRead,
        RecoveryPhase::Measuring => ev is Measured,
        RecoveryPhase::Repairing { .. } => ev is Truncated,
        RecoveryPhase::Positioning => ev is SoughtEnd,
        RecoveryPhase::Ready => false,
        RecoveryPhase::Failed => false,
    }
}

/// A recovery in progress: the database rebuilt so far and the step it
/// waits for.
pub struct Recovery {
    db: NullifierDB,
    phase: RecoveryPhase,
    size: Ghost<Option<u64>>,
}

impl Recovery {
    /// The step the recovery waits for.
    pub closed spec fn phase(&self) -> RecoveryPhase {
        self.phase
    }

    /// The database rebuilt so far.
    pub closed spec fn db(&self) -> NullifierDB {
        self.db
    }

    /// The database is well formed, holds no lock before the locking step
    /// succeeded, and holds it in every step after that.
    pub closed spec fn wf(&self) -> bool {
        &&& self.db.wf()
        &&& (self.phase == RecoveryPhase::Opening || self.phase == RecoveryPhase::Locking)
            ==> !self.db.locked()
        &&& (self.phase != RecoveryPhase::Opening && self.phase != RecoveryPhase::Locking
            && self.phase != RecoveryPhase::Failed) ==> self.db.locked()
        &&& self.phase == RecoveryPhase::Opening ==> self.db.file() == Seq::<u8>::empty()
        &&& self.phase matches RecoveryPhase::Repairing { target_size } ==> target_size % 32 == 0
        &&& (self.phase == RecoveryPhase::Positioning || self.phase == RecoveryPhase::Ready)
            ==> (self.size@ is Some && self.size@.unwrap() % 32 == 0)
    }

    /// The size of the database file as last measured or cut, once known.
    pub closed spec fn known_size(&self) -> Option<u64> {
        self.size@
    }

    /// What well-formedness means, for use outside this module.
    pub proof fn lemma_wf(&self)
        requires
            self.wf(),
        ensures
            self.db().wf(),
            (self.phase() == RecoveryPhase::Opening || self.phase() == RecoveryPhase::Locking)
                ==> !self.db().locked(),
            (self.phase() != RecoveryPhase::Opening && self.phase() != RecoveryPhase::Locking
                && self.phase() != RecoveryPhase::Failed) ==> self.db().locked(),
            self.phase() is Repairing ==> self.phase()->target_size % 32 == 0,
            (self.phase() == RecoveryPhase::Positioning || self.phase() == RecoveryPhase::Ready)
                ==> (self.known_size() is Some && self.known_size().unwrap() % 32 == 0),
    {
    }

    /// Starts recovering the database whose file is at `path`. The first
    /// step is to open that file for reading and writing.
    pub fn new(path: String) -> (r: Recovery)
        ensures
            r.wf(),
            r.phase() == RecoveryPhase::Opening,
            r.db().entries() == Set::<Scalar>::empty(),
            r.db().file() == Seq::<u8>::empty(),
            r.db().path() == path@,
            !r.db().locked(),
    {
        Recovery { db: NullifierDB::new(path), phase: RecoveryPhase::Opening, size: Ghost(None) }
    }

    /// Takes in the outcome of the pending step and says what to do next.
    pub fn step(&mut self, event: RecoveryEvent) -> (action: RecoveryAction)
        requires
            old(self).wf(),
        ensures
            final(self).wf(),
            recovery_step(
                old(self).phase(),
                old(self).db(),
                event,
                final(self).phase(),
                final(self).db(),
                action,
            ),
            is_success(event) ==> !(action is Abort),
            old(self).phase() == RecoveryPhase::Reading ==> (event matches RecoveryEvent::RecordRead(
                Ok(s),
            ) ==> {
                &&& final(self).phase() == RecoveryPhase::Reading
                &&& final(self).db().entries() == old(self).db().entries().insert(s)
                &&& final(self).db().file() == old(self).db().file() + s@
                &&& action is ReadRecord
            }),
            old(self).phase() == RecoveryPhase::Measuring ==> (event matches RecoveryEvent::Measured(
                Ok(size),
            ) ==> {
                &&& final(self).known_size() == Some(size)
                &&& size % 32 != 0 ==> (action matches RecoveryAction::Truncate {
                    report,
                    target_size,
                } && target_size % 32 == 0 && target_size <= size && size - target_size < 32
                    && report == (NullifierError::CorruptedFileSize {
                    size,
                    valid_size: target_size,
                }) && final(self).phase() == (RecoveryPhase::Repairing { target_size }))
                &&& size % 32 == 0 ==> (action is SeekToEnd && final(self).phase()
                    == RecoveryPhase::Positioning)
            }),
    {
        let ghost d = self.db;
        match (self.phase, event) {
            (RecoveryPhase::Opening, RecoveryEvent::Opened(Ok(()))) => {
                self.phase = RecoveryPhase::Locking;
                RecoveryAction::AcquireLock
            },
            (RecoveryPhase::Opening, RecoveryEvent::Opened(Err(failure))) => {
                self.phase = RecoveryPhase::Failed;
                let e = if failure.kind == IoErrorKind::NotFound {
                    NullifierError::FileNotFound { path: self.db.path_string() }
                } else {
                    NullifierError::Io {
                        source: failure,
                        context: "opening database file for recovery",
                    }
                };
                RecoveryAction::Abort(e)
            },
            (RecoveryPhase::Locking, RecoveryEvent::LockAttempted(outcome)) => {
                match self.db.lock_attempted(outcome) {
                    Ok(()) => {
                        self.phase = RecoveryPhase::Seeking;
                        RecoveryAction::SeekToStart
                    },
                    Err(e) => {
                        self.phase = RecoveryPhase::Failed;
                        RecoveryAction::Abort(e)
                    },
                }
            },
            (RecoveryPhase::Seeking, RecoveryEvent::SoughtStart(Ok(()))) => {
                self.phase = RecoveryPhase::Reopening;
                RecoveryAction::ReopenForReading
            },
            (RecoveryPhase::Seeking, RecoveryEvent::SoughtStart(Err(failure))) => {
                self.phase = RecoveryPhase::Failed;
                RecoveryAction::Abort(
                    NullifierError::Io { source: failure, context: "seeking to beginning of file" },
                )
            },
            (RecoveryPhase::Reopening, RecoveryEvent::Reopened(Ok(()))) => {
                self.phase = RecoveryPhase::Reading;
                RecoveryAction::ReadRecord
            },
            (RecoveryPhase::Reopening, RecoveryEvent::Reopened(Err(failure))) => {
                self.phase = RecoveryPhase::Failed;
                RecoveryAction::Abort(
                    NullifierError::Io {
                        source: failure,
                        context: "reopening database file for reading",
                    },
                )
            },
            (RecoveryPhase::Reading, RecoveryEvent::RecordRead(Ok(scalar))) => {
                self.db.load_record(scalar);
                RecoveryAction::ReadRecord
            },
            (RecoveryPhase::Reading, RecoveryEvent::RecordRead(Err(failure))) => {
                if failure.kind == IoErrorKind::UnexpectedEof {
                    self.phase = RecoveryPhase::Measuring;
                    RecoveryAction::MeasureFile
                } else {
                    self.phase = RecoveryPhase::Failed;
                    RecoveryAction::Abort(
                        NullifierError::Io {
                            source: failure,
                            context: "reading nullifiers from database file",
                        },
                    )
                }
            },
            (RecoveryPhase::Measuring, RecoveryEvent::Measured(Ok(size))) => {
                self.size = Ghost(Some(size));
                if size % 32 != 0 {
                    let valid_size = 32 * (size / 32);
                    self.phase = RecoveryPhase::Repairing { target_size: valid_size };
                    RecoveryAction::Truncate {
                        report: NullifierError::CorruptedFileSize { size, valid_size },
                        target_size: valid_size,
                    }
                } else {
                    self.phase = RecoveryPhase::Positioning;
                    RecoveryAction::SeekToEnd
                }
            },
            (RecoveryPhase::Measuring, RecoveryEvent::Measured(Err(failure))) => {
                self.phase = RecoveryPhase::Failed;
                RecoveryAction::Abort(
                    NullifierError::Io { source: failure, context: "retrieving file metadata" },
                )
            },
            (RecoveryPhase::Repairing { target_size }, RecoveryEvent::Truncated(Ok(()))) => {
                self.size = Ghost(Some(target_size));
                self.phase = RecoveryPhase::Positioning;
                RecoveryAction::SeekToEnd
            },
            (RecoveryPhase::Repairing { target_size }, RecoveryEvent::Truncated(Err(failure))) => {
                self.phase = RecoveryPhase::Failed;
                RecoveryAction::Abort(NullifierError::TruncateError { source: failure, target_size })
            },
            (RecoveryPhase::Positioning, RecoveryEvent::SoughtEnd(Ok(()))) => {
                self.phase = RecoveryPhase::Ready;
                RecoveryAction::Finish
            },
            (RecoveryPhase::Positioning, RecoveryEvent::SoughtEnd(Err(failure))) => {
                self.phase = RecoveryPhase::Failed;
                RecoveryAction::Abort(
                    NullifierError::Io {
                        source: failure,
                        context: "positioning file writer at end of file",
                    },
                )
            },
            _ => RecoveryAction::Unexpected,
        }
    }

    /// The database rebuilt so far, taken out of the recovery: after
    /// `Finish`, the recovered database; after `Abort`, the state whose lock
    /// is to be released.
    pub fn into_db(self) -> (db: NullifierDB)
        ensures
            db == self.db(),
    {
        self.db
    }
}

} // verus!
