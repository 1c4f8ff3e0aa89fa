use nullifierdb::{
    IoErrorKind, IoFailure, NullifierDB, NullifierError, Recovery, RecoveryAction, RecoveryEvent,
    Scalar,
};
use std::collections::HashMap;

/// Files kept in memory, with the locks taken on them.
struct Disk {
    files: HashMap<String, Vec<u8>>,
    locks: Vec<String>,
}

fn failure(kind: IoErrorKind, message: &str) -> IoFailure {
    IoFailure { kind, message: message.to_string() }
}

impl Disk {
    fn new() -> Disk {
        Disk { files: HashMap::new(), locks: Vec::new() }
    }

    fn try_lock(&mut self, path: &str) -> Result<(), IoFailure> {
        if self.locks.iter().any(|p| p == path) {
            Err(failure(IoErrorKind::WouldBlock, "Resource temporarily unavailable (os error 11)"))
        } else {
            self.locks.push(path.to_string());
            Ok(())
        }
    }

    fn unlock(&mut self, path: &str) -> Result<(), IoFailure> {
        self.locks.retain(|p| p != path);
        Ok(())
    }

    fn release(&mut self, path: &str, db: &mut NullifierDB) -> Result<(), NullifierError> {
        if db.unlock_needed() {
            let r = self.unlock(path);
            db.unlock_attempted(r)
        } else {
            Ok(())
        }
    }

    fn recover(&mut self, path: &str) -> Result<NullifierDB, NullifierError> {
        let mut rec = Recovery::new(path.to_string());
        let mut offset = 0usize;
        let mut event = RecoveryEvent::Opened(if self.files.contains_key(path) {
            Ok(())
        } else {
            Err(failure(IoErrorKind::NotFound, "No such file or directory (os error 2)"))
        });
        loop {
            match rec.step(event) {
                RecoveryAction::AcquireLock => {
                    event = RecoveryEvent::LockAttempted(self.try_lock(path));
                }
                RecoveryAction::SeekToStart => event = RecoveryEvent::SoughtStart(Ok(())),
                RecoveryAction::ReopenForReading => event = RecoveryEvent::Reopened(Ok(())),
                RecoveryAction::ReadRecord => {
                    let bytes = &self.files[path];
                    if offset + 32 <= bytes.len() {
                        let mut s = [0u8; 32];
                        s.copy_from_slice(&bytes[offset..offset + 32]);
                        offset += 32;
                        event = RecoveryEvent::RecordRead(Ok(s));
                    } else {
                        event = RecoveryEvent::RecordRead(Err(failure(
                            IoErrorKind::UnexpectedEof,
                            "failed to fill whole buffer",
                        )));
                    }
                }
                RecoveryAction::MeasureFile => {
                    event = RecoveryEvent::Measured(Ok(self.files[path].len() as u64));
                }
                RecoveryAction::Truncate { report: _, target_size } => {
                    self.files.get_mut(path).unwrap().truncate(target_size as usize);
                    event = RecoveryEvent::Truncated(Ok(()));
                }
                RecoveryAction::SeekToEnd => event = RecoveryEvent::SoughtEnd(Ok(())),
                RecoveryAction::Finish => return Ok(rec.into_db()),
                RecoveryAction::Abort(e) => {
                    let mut db = rec.into_db();
                    let _ = self.release(path, &mut db);
                    return Err(e);
                }
                RecoveryAction::Unexpected => panic!("unexpected event"),
            }
        }
    }

    fn create(&mut self, path: &str) -> Result<NullifierDB, NullifierError> {
        if self.files.contains_key(path) {
            return self.recover(path);
        }
        self.files.insert(path.to_string(), Vec::new());
        let mut db = NullifierDB::new(path.to_string());
        if db.lock_needed() {
            let r = self.try_lock(path);
            db.lock_attempted(r)?;
        }
        Ok(db)
    }

    fn insert(&mut self, path: &str, db: &mut NullifierDB, s: Scalar) -> Result<bool, NullifierError> {
        if db.insert(s) {
            self.files.get_mut(path).unwrap().extend_from_slice(&s);
            Ok(true)
        } else {
            Ok(false)
        }
    }

    fn close(&mut self, path: &str, mut db: NullifierDB) -> Result<(), NullifierError> {
        self.release(path, &mut db)
    }
}

fn scalar(seed: u8) -> Scalar {
    let mut s = [0u8; 32];
    for (i, b) in s.iter_mut().enumerate() {
        *b = seed.wrapping_mul(31).wrapping_add(i as u8).wrapping_add(7);
    }
    s
}

#[test]
fn test_create_and_insert() -> Result<(), NullifierError> {
    let mut disk = Disk::new();
    let db_path = "nullifiers.db";
    let mut db = disk.create(db_path)?;
    let nullifier = scalar(1);
    let result = disk.insert(db_path, &mut db, nullifier)?;
    assert!(result, "Expected insert to return true for a new nullifier");
    let result = disk.insert(db_path, &mut db, nullifier)?;
    assert!(!result, "Expected insert to return false for an existing nullifier");
    assert!(db.contains(&nullifier), "Expected nullifier to exist in the database");
    assert_eq!(db.len(), 1, "Expected database to contain 1 nullifier");
    let nullifier2 = scalar(2);
    let result = disk.insert(db_path, &mut db, nullifier2)?;
    assert!(result, "Expected insert to return true for a new nullifier");
    assert_eq!(db.len(), 2, "Expected database to contain 2 nullifiers");
    disk.close(db_path, db)?;
    Ok(())
}

#[test]
fn test_recover() -> Result<(), NullifierError> {
    let mut disk = Disk::new();
    let db_path = "nullifiers.db";
    let nullifiers = vec![scalar(3), scalar(4), scalar(5)];
    {
        let mut db = disk.create(db_path)?;
        for nullifier in &nullifiers {
            disk.insert(db_path, &mut db, *nullifier)?;
        }
        disk.close(db_path, db)?;
    }
    let recovered_db = disk.recover(db_path)?;
    assert_eq!(recovered_db.len(), nullifiers.len(),
        "Recovered database should have the same number of nullifiers");
    for nullifier in &nullifiers {
        assert!(recovered_db.contains(nullifier),
            "Expected nullifier to exist in the recovered database");
    }
    Ok(())
}

#[test]
fn test_empty_db_recovery() -> Result<(), NullifierError> {
    let mut disk = Disk::new();
    let db_path = "empty.db";
    {
        let db = disk.create(db_path)?;
        disk.close(db_path, db)?;
    }
    let recovered_db = disk.create(db_path)?;
    assert_eq!(recovered_db.len(), 0, "Recovered empty database should have zero nullifiers");
    assert!(recovered_db.is_empty(), "Recovered empty database should be empty");
    Ok(())
}

#[test]
fn test_lock_contention() {
    let mut disk = Disk::new();
    let db_path = "locked.db";
    let db1 = disk.create(db_path).expect("Failed to create first database");
    let result = disk.recover(db_path);
    match result {
        Err(NullifierError::DatabaseLocked { path }) => {
            assert_eq!(path, db_path.to_string(), "Lock error should contain the correct path");
            let error_msg = NullifierError::DatabaseLocked { path }.message();
            assert!(error_msg.contains("restart your application"),
                "Error message should include recovery instructions");
        }
        Ok(_) => panic!("Expected DatabaseLocked error, got Ok"),
        Err(e) => panic!("Expected DatabaseLocked error, got {:?}", e),
    }
    disk.close(db_path, db1).expect("close");
    let db2 = disk.recover(db_path).expect("Failed to recover database after lock release");
    assert!(db2.is_empty(), "Database should be empty");
}

#[test]
fn test_zero_scalar_nullifier() -> Result<(), NullifierError> {
    let mut disk = Disk::new();
    let db_path = "zero_scalar.db";
    let zero_scalar = [0u8; 32];
    {
        let mut db = disk.create(db_path)?;
        assert!(!db.contains(&zero_scalar), "Zero scalar should not exist initially");
        let result = disk.insert(db_path, &mut db, zero_scalar)?;
        assert!(result, "Expected insert to return true for zero scalar");
        assert!(db.contains(&zero_scalar), "Expected zero scalar to exist after insertion");
        let result = disk.insert(db_path, &mut db, zero_scalar)?;
        assert!(!result, "Expected insert to return false for duplicate zero scalar");
        disk.close(db_path, db)?;
    }
    {
        let db = disk.recover(db_path)?;
        assert!(db.contains(&zero_scalar), "Zero scalar should persist after recovery");
        assert_eq!(db.len(), 1, "Database should contain exactly one nullifier");
    }
    Ok(())
}

#[test]
fn test_error_file_not_found() {
    let mut disk = Disk::new();
    let result = disk.recover("does_not_exist.db");
    match result {
        Err(NullifierError::FileNotFound { .. }) => {}
        Ok(_) => panic!("Expected FileNotFound error, got Ok"),
        Err(e) => panic!("Expected FileNotFound error, got {:?}", e),
    }
}

#[test]
fn test_repair_corrupted_file() -> Result<(), NullifierError> {
    let mut disk = Disk::new();
    let db_path = "corrupted.db";
    let nullifiers = vec![scalar(6), scalar(7)];
    {
        let mut db = disk.create(db_path)?;
        for n in &nullifiers {
            disk.insert(db_path, &mut db, *n)?;
        }
        disk.close(db_path, db)?;
    }
    disk.files.get_mut(db_path).unwrap().extend_from_slice(&[1, 2, 3, 4, 5, 6, 7, 8, 9, 10]);
    let recovered_db = disk.recover(db_path)?;
    assert_eq!(recovered_db.len(), nullifiers.len(), "Expected all valid nullifiers to be recovered");
    for n in &nullifiers {
        assert!(recovered_db.contains(n), "Expected nullifier to exist in the recovered database");
    }
    assert_eq!(disk.files[db_path].len() % 32, 0,
        "Expected file size to be a multiple of 32 bytes after repair");
    Ok(())
}

#[test]
fn test_sync_durability() -> Result<(), NullifierError> {
    let mut disk = Disk::new();
    let db_path = "sync_test.db";
    let nullifiers = vec![scalar(8), scalar(9), scalar(10)];
    {
        let mut db = disk.create(db_path)?;
        for nullifier in &nullifiers {
            disk.insert(db_path, &mut db, *nullifier)?;
        }
        disk.close(db_path, db)?;
    }
    {
        let recovered_db = disk.recover(db_path)?;
        assert_eq!(recovered_db.len(), nullifiers.len(),
            "Database should contain all nullifiers after sync");
        for nullifier in &nullifiers {
            assert!(recovered_db.contains(nullifier), "Each nullifier should exist after sync");
        }
    }
    Ok(())
}

#[test]
fn test_create_recovers_existing_db() -> Result<(), NullifierError> {
    let mut disk = Disk::new();
    let db_path = "recovery_test.db";
    let initial_nullifiers = vec![scalar(11), scalar(12)];
    {
        let mut db = disk.create(db_path)?;
        for nullifier in &initial_nullifiers {
            disk.insert(db_path, &mut db, *nullifier)?;
        }
        disk.close(db_path, db)?;
    }
    let additional_nullifier = scalar(13);
    {
        let mut db = disk.create(db_path)?;
        assert_eq!(db.len(), initial_nullifiers.len(),
            "Database should contain all initial nullifiers after recovery");
        for nullifier in &initial_nullifiers {
            assert!(db.contains(nullifier), "Each initial nullifier should exist after recovery");
        }
        disk.insert(db_path, &mut db, additional_nullifier)?;
        disk.close(db_path, db)?;
    }
    {
        let mut db = disk.recover(db_path)?;
        assert_eq!(db.len(), initial_nullifiers.len() + 1, "Database should contain all nullifiers");
        for nullifier in &initial_nullifiers {
            assert!(db.contains(nullifier), "Initial nullifier should still exist");
        }
        assert!(db.contains(&additional_nullifier), "Additional nullifier should exist");
        disk.release(db_path, &mut db)?;
    }
    Ok(())
}
