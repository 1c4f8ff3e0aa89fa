# nullifierdb

A database of 32-byte nullifiers kept in a hash set and persisted as an
append-only file of 32-byte records.

- `src/` is verified with Verus: the set of nullifiers and the file model
  (`db.rs`), what a file of records holds (`records.rs`), the recovery
  protocol that reads a file back, repairs a torn tail and guards the lock
  (`recovery.rs`), the errors and their messages (`error.rs`, `text.rs`),
  and laws over several operations (`laws.rs`).
- `app/` performs the file operations and the `flock` calls, logs, and
  gives the errors their `Display` and `Error` forms.
