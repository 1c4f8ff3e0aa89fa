//! Laws of the nullifier database that span several operations.

use vstd::prelude::*;
use crate::db::{NullifierDB, Scalar};
use crate::records::{
    lemma_records_append, lemma_records_valid_prefix, records, valid_prefix_len,
};
use crate::error::{error_from_io, error_source, error_text, IoErrorKind, IoFailure, NullifierError};
use crate::recovery::{
    answers, is_success, recovery_step, Recovery, RecoveryAction, RecoveryEvent, RecoveryPhase,
};

verus! {

/// The file of a database holds exactly its nullifiers: reading the file
/// back gives the entries, no more and no fewer.
pub proof fn law_file_holds_entries(db: &NullifierDB)
    requires
        db.wf(),
    ensures
        records(db.file()) == db.entries(),
        db.file().len() % 32 == 0,
{
    db.lemma_wf();
}

/// Inserting a nullifier and then reading the file back gives the old
/// entries with that nullifier added: a new one is appended to the file,
/// and a known one, which is not appended, is already there.
pub proof fn law_insert_then_read_back(file: Seq<u8>, entries: Set<Scalar>, s: Scalar)
    requires
        file.len() % 32 == 0,
        records(file) == entries,
    ensures
        !entries.contains(s) ==> records(file + s@) == entries.insert(s),
        entries.contains(s) ==> records(file) == entries.insert(s),
{
    lemma_records_append(file, s);
    if entries.contains(s) {
        assert(entries.insert(s) =~= entries);
    }
}

/// Inserting the same nullifier twice: the second insert finds it and
/// changes nothing.
pub proof fn law_insert_is_idempotent(entries: Set<Scalar>, s: Scalar)
    ensures
        entries.insert(s).contains(s),
        entries.insert(s).insert(s) == entries.insert(s),
{
    assert(entries.insert(s).insert(s) =~= entries.insert(s));
}

/// The count of nullifiers grows by one on an insert that reports a new
/// nullifier, and stays on one that does not.
pub proof fn law_count_follows_novelty(entries: Set<Scalar>, s: Scalar)
    requires
        entries.finite(),
    ensures
        !entries.contains(s) ==> entries.insert(s).len() == entries.len() + 1,
        entries.contains(s) ==> entries.insert(s).len() == entries.len(),
{
    if entries.contains(s) {
        assert(entries.insert(s) =~= entries);
    }
}

/// A file whose size is not a multiple of 32 is cut down to the largest
/// multiple of 32 not above its size: less than one record is lost, a
/// sound file is left as it is, and every complete record stays.
pub proof fn law_repair_keeps_complete_records(file: Seq<u8>)
    ensures
        valid_prefix_len(file.len() as int) % 32 == 0,
        0 <= valid_prefix_len(file.len() as int) <= file.len(),
        file.len() - valid_prefix_len(file.len() as int) < 32,
        file.len() % 32 == 0 ==> valid_prefix_len(file.len() as int) == file.len(),
        records(file.take(valid_prefix_len(file.len() as int))) == records(file),
{
    lemma_records_valid_prefix(file);
}

/// What a recovery reads back is what the database wrote: once a recovery
/// has read the same bytes that a database's file holds, it holds the same
/// nullifiers.
pub proof fn law_read_back_restores_entries(written: &NullifierDB, r: &Recovery)
    requires
        written.wf(),
        r.wf(),
        r.db().file() == written.file(),
    ensures
        r.db().entries() == written.entries(),
{
    written.lemma_wf();
    r.lemma_wf();
    r.db().lemma_wf();
}

/// A recovery that finished holds the exclusive lock, and its database is
/// well formed: its entries are the records it read.
pub proof fn law_recovered_database_is_locked(r: &Recovery)
    requires
        r.wf(),
        r.phase() == RecoveryPhase::Ready,
    ensures
        r.db().locked(),
        r.db().wf(),
        records(r.db().file()) == r.db().entries(),
        r.known_size() is Some,
        r.known_size().unwrap() % 32 == 0,
{
    r.lemma_wf();
    r.db().lemma_wf();
}

/// A measured size that is not a multiple of 32 has a torn tail: the step
/// asks to cut the file to a multiple of 32 that is at most the size and
/// more than 32 below it, so only the torn bytes go and no complete record
/// is lost; it reports the corruption with those two sizes and keeps the
/// nullifiers read so far.
pub proof fn law_torn_tail_is_cut_to_last_whole_record(
    d: NullifierDB,
    size: u64,
    q: RecoveryPhase,
    d2: NullifierDB,
    act: RecoveryAction,
)
    requires
        recovery_step(RecoveryPhase::Measuring, d, RecoveryEvent::Measured(Ok(size)), q, d2, act),
        size % 32 != 0,
    ensures
        act matches RecoveryAction::Truncate { report, target_size } && {
            &&& target_size % 32 == 0
            &&& target_size <= size
            &&& size - target_size < 32
            &&& report == (NullifierError::CorruptedFileSize { size, valid_size: target_size })
            &&& q == (RecoveryPhase::Repairing { target_size })
        },
        d2.entries() == d.entries(),
        d2.file() == d.file(),
{
}

/// A measured size that is a multiple of 32 needs no repair: the step goes
/// straight to positioning the file at its end.
pub proof fn law_whole_file_is_not_cut(
    d: NullifierDB,
    size: u64,
    q: RecoveryPhase,
    d2: NullifierDB,
    act: RecoveryAction,
)
    requires
        recovery_step(RecoveryPhase::Measuring, d, RecoveryEvent::Measured(Ok(size)), q, d2, act),
        size % 32 == 0,
    ensures
        act is SeekToEnd,
        q == RecoveryPhase::Positioning,
        d2.entries() == d.entries(),
{
}

/// Every complete record read during recovery becomes a nullifier of the
/// database, whatever its bytes, and reading goes on.
pub proof fn law_every_record_read_is_loaded(
    d: NullifierDB,
    s: Scalar,
    q: RecoveryPhase,
    d2: NullifierDB,
    act: RecoveryAction,
)
    requires
        recovery_step(RecoveryPhase::Reading, d, RecoveryEvent::RecordRead(Ok(s)), q, d2, act),
    ensures
        d2.entries().contains(s),
        d2.entries() == d.entries().insert(s),
        d2.file() == d.file() + s@,
        q == RecoveryPhase::Reading,
        act is ReadRecord,
{
}

/// A recovery whose I/O steps all succeed never aborts, and each success
/// leads on to the next step: the end of the records to measuring, a
/// measured size to a cut or to positioning, a cut to positioning, and
/// positioning to the finished database.
pub proof fn law_success_never_aborts(
    p: RecoveryPhase,
    d: NullifierDB,
    ev: RecoveryEvent,
    q: RecoveryPhase,
    d2: NullifierDB,
    act: RecoveryAction,
)
    requires
        recovery_step(p, d, ev, q, d2, act),
        is_success(ev),
        p != RecoveryPhase::Failed,
    ensures
        !(act is Abort),
        q != RecoveryPhase::Failed,
        (p == RecoveryPhase::Reading && ev is RecordRead && !(ev->RecordRead_0 is Ok)) ==> act is MeasureFile,
        (p == RecoveryPhase::Measuring && ev is Measured) ==> (act is Truncate || act is SeekToEnd),
        (p is Repairing && ev is Truncated) ==> (act is SeekToEnd && q == RecoveryPhase::Positioning),
        (p == RecoveryPhase::Positioning && ev is SoughtEnd) ==> (act is Finish && q
            == RecoveryPhase::Ready),
{
}

/// A failed I/O step ends the recovery: the step aborts, keeps the
/// nullifiers read so far, and leaves the lock as it was so that the caller
/// releases it if it was taken.
pub proof fn law_failure_aborts(
    p: RecoveryPhase,
    d: NullifierDB,
    ev: RecoveryEvent,
    q: RecoveryPhase,
    d2: NullifierDB,
    act: RecoveryAction,
)
    requires
        recovery_step(p, d, ev, q, d2, act),
        answers(p, ev),
        !is_success(ev),
    ensures
        act is Abort,
        q == RecoveryPhase::Failed,
        d2.entries() == d.entries(),
        d2.locked() == d.locked(),
{
}

/// An event that does not answer the pending step changes nothing.
pub proof fn law_event_out_of_turn_changes_nothing(
    p: RecoveryPhase,
    d: NullifierDB,
    ev: RecoveryEvent,
    q: RecoveryPhase,
    d2: NullifierDB,
    act: RecoveryAction,
)
    requires
        recovery_step(p, d, ev, q, d2, act),
        !answers(p, ev),
    ensures
        act is Unexpected,
        q == p,
        d2.entries() == d.entries(),
        d2.file() == d.file(),
        d2.locked() == d.locked(),
{
}

/// When another holder has the lock, recovery fails with `DatabaseLocked`
/// naming the database's path, without holding the lock.
pub proof fn law_lock_contention_reports_locked(
    d: NullifierDB,
    failure: IoFailure,
    q: RecoveryPhase,
    d2: NullifierDB,
    act: RecoveryAction,
)
    requires
        recovery_step(
            RecoveryPhase::Locking,
            d,
            RecoveryEvent::LockAttempted(Err(failure)),
            q,
            d2,
            act,
        ),
        failure.kind == IoErrorKind::WouldBlock,
        !d.locked(),
    ensures
        act matches RecoveryAction::Abort(NullifierError::DatabaseLocked { path }) && path@
            == d.path(),
        !d2.locked(),
{
}

/// A missing database file makes recovery fail with `FileNotFound` naming
/// the database's path.
pub proof fn law_missing_file_reports_not_found(
    d: NullifierDB,
    failure: IoFailure,
    q: RecoveryPhase,
    d2: NullifierDB,
    act: RecoveryAction,
)
    requires
        recovery_step(RecoveryPhase::Opening, d, RecoveryEvent::Opened(Err(failure)), q, d2, act),
        failure.kind == IoErrorKind::NotFound,
    ensures
        act matches RecoveryAction::Abort(NullifierError::FileNotFound { path }) && path@
            == d.path(),
{
}

/// `t` is the end of `s`.
pub open spec fn ends_with(s: Seq<char>, t: Seq<char>) -> bool {
    t.len() <= s.len() && s.subrange(s.len() - t.len(), s.len() as int) == t
}

/// The message of an error that carries an I/O failure ends with that
/// failure's text.
pub proof fn law_message_ends_with_source(e: NullifierError)
    requires
        error_source(e) is Some,
    ensures
        ends_with(error_text(e), error_source(e).unwrap().message@),
{
    let t = error_text(e);
    let m = error_source(e).unwrap().message@;
    assert(t.subrange(t.len() - m.len(), t.len() as int) =~= m);
}

/// An I/O failure turned into an error keeps its text at the end of the
/// message, and keeps the failure itself as the source unless the file was
/// missing.
pub proof fn law_io_failure_conversion(failure: IoFailure)
    ensures
        ends_with(error_text(error_from_io(failure)), failure.message@),
        failure.kind == IoErrorKind::NotFound <==> error_source(error_from_io(failure)) is None,
        failure.kind != IoErrorKind::NotFound ==> error_source(error_from_io(failure)) == Some(
            failure,
        ),
{
    let t = error_text(error_from_io(failure));
    let m = failure.message@;
    assert(t.subrange(t.len() - m.len(), t.len() as int) =~= m);
}

} // verus!
