//! The database file as a sequence of 32-byte records, and what a file
//! of that shape holds.

use vstd::prelude::*;
use crate::db::Scalar;

verus! {

/// The number of complete 32-byte records at the front of `file`.
pub open spec fn record_count(file: Seq<u8>) -> int {
    file.len() as int / 32
}

/// The bytes of record `i` of `file`.
pub open spec fn record_bytes(file: Seq<u8>, i: int) -> Seq<u8> {
    file.subrange(32 * i, 32 * i + 32)
}

/// The nullifiers that `file` holds: one per complete record. Bytes after
/// the last complete record belong to no nullifier.
pub open spec fn records(file: Seq<u8>) -> Set<Scalar> {
    Set::new(
        |s: Scalar|
            exists|i: int| 0 <= i < record_count(file) && s@ == #[trigger] record_bytes(file, i),
    )
}

/// The length of the longest prefix of a file of `size` bytes that holds
/// only complete records.
pub open spec fn valid_prefix_len(size: int) -> int {
    32 * (size / 32)
}

/// An empty file holds no nullifiers.
pub proof fn lemma_records_empty()
    ensures
        records(Seq::<u8>::empty()) == Set::<Scalar>::empty(),
{
    assert(records(Seq::<u8>::empty()) =~= Set::<Scalar>::empty());
}

/// Appending the bytes of `s` to a file made of complete records adds `s`
/// to what the file holds, and nothing else.
pub proof fn lemma_records_append(file: Seq<u8>, s: Scalar)
    requires
        file.len() % 32 == 0,
    ensures
        records(file + s@) == records(file).insert(s),
        (file + s@).len() % 32 == 0,
        record_count(file + s@) == record_count(file) + 1,
{
    let g = file + s@;
    let n = record_count(file);
    assert(s@.len() == 32);
    assert(g.len() == file.len() + 32);
    assert(record_count(g) == n + 1);
    assert(record_bytes(g, n) =~= s@);
    assert forall|i: int| 0 <= i < n implies #[trigger] record_bytes(g, i) == record_bytes(file, i) by {
        assert(32 * i + 32 <= file.len());
        assert(record_bytes(g, i) =~= record_bytes(file, i));
    }
    assert forall|t: Scalar| records(g).contains(t) <==> records(file).insert(s).contains(t) by {
        if records(g).contains(t) {
            let i = choose|i: int| 0 <= i < record_count(g) && t@ == #[trigger] record_bytes(g, i);
            if i < n {
                assert(records(file).contains(t));
            } else {
                assert(t@ =~= s@);
                assert(t == s);
            }
        }
        if records(file).insert(s).contains(t) {
            if t == s {
                assert(t@ == record_bytes(g, n));
            } else {
                let i = choose|i: int| 0 <= i < n && t@ == #[trigger] record_bytes(file, i);
                assert(t@ == record_bytes(g, i));
            }
        }
    }
    assert(records(g) =~= records(file).insert(s));
}

/// Cutting a file down to its complete records keeps every nullifier it
/// holds.
pub proof fn lemma_records_valid_prefix(file: Seq<u8>)
    ensures
        records(file.take(valid_prefix_len(file.len() as int))) == records(file),
        file.take(valid_prefix_len(file.len() as int)).len() % 32 == 0,
{
    let p = valid_prefix_len(file.len() as int);
    let t = file.take(p);
    assert(0 <= p <= file.len());
    assert(t.len() == p);
    assert(record_count(t) == record_count(file));
    assert forall|i: int| 0 <= i < record_count(file) implies #[trigger] record_bytes(t, i) == record_bytes(file, i) by {
        assert(32 * i + 32 <= p);
        assert(record_bytes(t, i) =~= record_bytes(file, i));
    }
    assert forall|x: Scalar| records(t).contains(x) <==> records(file).contains(x) by {
        if records(t).contains(x) {
            let i = choose|i: int| 0 <= i < record_count(t) && x@ == #[trigger] record_bytes(t, i);
            assert(x@ == record_bytes(file, i));
        }
        if records(file).contains(x) {
            let i = choose|i: int| 0 <= i < record_count(file) && x@ == #[trigger] record_bytes(file, i);
            assert(x@ == record_bytes(t, i));
        }
    }
    assert(records(t) =~= records(file));
}

} // verus!
