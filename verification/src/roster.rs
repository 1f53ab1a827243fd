//! Lists of records identified by a numeric key, as the synchronisation
//! phase keeps them: a state message for a key that is already listed
//! replaces that entry in place, one for a new key is appended.

use vstd::prelude::*;

verus! {

/// A record identified by a numeric key (a channel id, a user session).
pub trait Keyed {
    spec fn key_of(&self) -> u32;

    fn key(&self) -> (k: u32)
        ensures
            k == self.key_of(),
    ;
}

/// Some entry of `s` has key `k`.
pub open spec fn has_key<T: Keyed>(s: Seq<T>, k: u32) -> bool {
    exists|i: int| 0 <= i < s.len() && #[trigger] s[i].key_of() == k
}

/// `i` is the position of the first entry of `s` with key `k`.
pub open spec fn is_first_with_key<T: Keyed>(s: Seq<T>, k: u32, i: int) -> bool {
    &&& 0 <= i < s.len()
    &&& s[i].key_of() == k
    &&& forall|j: int| 0 <= j < i ==> #[trigger] s[j].key_of() != k
}

/// The position of the first entry of `s` with key `k` (meaningful when `has_key(s, k)`).
pub open spec fn first_index_of_key<T: Keyed>(s: Seq<T>, k: u32) -> int {
    choose|i: int| is_first_with_key(s, k, i)
}

/// The list after recording `item`: the first entry with the same key is
/// replaced by it, or, when there is none, it is appended.
pub open spec fn upserted<T: Keyed>(s: Seq<T>, item: T) -> Seq<T> {
    if has_key(s, item.key_of()) {
        s.update(first_index_of_key(s, item.key_of()), item)
    } else {
        s.push(item)
    }
}

/// No two entries of `s` share a key.
pub open spec fn keys_unique<T: Keyed>(s: Seq<T>) -> bool {
    forall|i: int, j: int|
        0 <= i < s.len() && 0 <= j < s.len() && i != j ==> #[trigger] s[i].key_of()
            != #[trigger] s[j].key_of()
}

/// The list seen as a map from key to the entry that a lookup finds.
pub open spec fn key_map<T: Keyed>(s: Seq<T>) -> Map<u32, T> {
    Map::new(|k: u32| has_key(s, k), |k: u32| s[first_index_of_key(s, k)])
}

proof fn lemma_first_index_unique<T: Keyed>(s: Seq<T>, k: u32, i: int)
    requires
        is_first_with_key(s, k, i),
    ensures
        has_key(s, k),
        first_index_of_key(s, k) == i,
{
    let c = first_index_of_key(s, k);
    assert(is_first_with_key(s, k, c));
    if c < i {
        assert(s[c].key_of() != k);
    } else if i < c {
        assert(s[i].key_of() != k);
    }
}

proof fn lemma_has_key_first<T: Keyed>(s: Seq<T>, k: u32)
    requires
        has_key(s, k),
    ensures
        is_first_with_key(s, k, first_index_of_key(s, k)),
    decreases s.len(),
{
    let i = choose|i: int| 0 <= i < s.len() && #[trigger] s[i].key_of() == k;
    if has_key(s.take(i), k) {
        lemma_has_key_first(s.take(i), k);
        let j = first_index_of_key(s.take(i), k);
        assert(is_first_with_key(s.take(i), k, j));
        assert forall|m: int| 0 <= m < j implies #[trigger] s[m].key_of() != k by {
            assert(s.take(i)[m] == s[m]);
        }
        assert(is_first_with_key(s, k, j));
    } else {
        assert forall|m: int| 0 <= m < i implies #[trigger] s[m].key_of() != k by {
            if s[m].key_of() == k {
                assert(s.take(i)[m] == s[m]);
            }
        }
        assert(is_first_with_key(s, k, i));
    }
}

/// Record `item` in `items`: replace the first entry with the same key, or
/// append `item` when no entry has its key.
pub fn upsert<T: Keyed>(items: &mut Vec<T>, item: T)
    ensures
        final(items)@ == upserted(old(items)@, item),
{
    let k = item.key();
    let mut i: usize = 0;
    while i < items.len()
        invariant
            0 <= i <= items@.len(),
            items@ == old(items)@,
            k == item.key_of(),
            forall|j: int| 0 <= j < i ==> #[trigger] items@[j].key_of() != k,
        decreases items@.len() - i,
    {
        if items[i].key() == k {
            proof {
                lemma_first_index_unique(items@, k, i as int);
            }
            items.set(i, item);
            return;
        }
        i += 1;
    }
    assert(!has_key(items@, k));
    items.push(item);
}

/// Recording an entry never makes two entries share a key.
pub proof fn lemma_upsert_keeps_keys_unique<T: Keyed>(s: Seq<T>, item: T)
    requires
        keys_unique(s),
    ensures
        keys_unique(upserted(s, item)),
{
    let k = item.key_of();
    let u = upserted(s, item);
    if has_key(s, k) {
        lemma_has_key_first(s, k);
        let f = first_index_of_key(s, k);
        assert forall|i: int, j: int|
            0 <= i < u.len() && 0 <= j < u.len() && i != j implies #[trigger] u[i].key_of()
            != #[trigger] u[j].key_of() by {
            if i == f {
                assert(s[j].key_of() != s[f].key_of());
            } else if j == f {
                assert(s[i].key_of() != s[f].key_of());
            } else {
                assert(s[i].key_of() != s[j].key_of());
            }
        }
    } else {
        assert forall|i: int, j: int|
            0 <= i < u.len() && 0 <= j < u.len() && i != j implies #[trigger] u[i].key_of()
            != #[trigger] u[j].key_of() by {
            if i == s.len() {
                assert(s[j].key_of() != k);
            } else if j == s.len() {
                assert(s[i].key_of() != k);
            } else {
                assert(s[i].key_of() != s[j].key_of());
            }
        }
    }
}

/// Seen as a map from key to entry, recording `item` is inserting it under
/// its key: a lookup of that key finds `item`, and every other key finds
/// what it found before.
pub proof fn lemma_upsert_key_map<T: Keyed>(s: Seq<T>, item: T)
    ensures
        key_map(upserted(s, item)) == key_map(s).insert(item.key_of(), item),
{
    let k = item.key_of();
    let u = upserted(s, item);
    if has_key(s, k) {
        lemma_has_key_first(s, k);
    }
    let f = if has_key(s, k) { first_index_of_key(s, k) } else { s.len() as int };
    assert(is_first_with_key(u, k, f)) by {
        assert forall|j: int| 0 <= j < f implies #[trigger] u[j].key_of() != k by {
            assert(u[j] == s[j]);
        }
    }
    lemma_first_index_unique(u, k, f);
    assert forall|k2: u32| k2 != k implies (has_key(u, k2) == has_key(s, k2) && (has_key(s, k2)
        ==> u[first_index_of_key(u, k2)] == s[first_index_of_key(s, k2)])) by {
        if has_key(s, k2) {
            lemma_has_key_first(s, k2);
            let g = first_index_of_key(s, k2);
            assert(g != f);
            assert(is_first_with_key(u, k2, g)) by {
                assert forall|j: int| 0 <= j < g implies #[trigger] u[j].key_of() != k2 by {
                    if j != f {
                        assert(u[j] == s[j]);
                    }
                }
            }
            lemma_first_index_unique(u, k2, g);
        }
        if has_key(u, k2) {
            let i = choose|i: int| 0 <= i < u.len() && #[trigger] u[i].key_of() == k2;
            assert(i != f);
            assert(s[i].key_of() == k2);
        }
    }
    assert(key_map(u) =~= key_map(s).insert(k, item));
}

/// Recording an entry keeps the length when its key is already listed and
/// adds one entry otherwise.
pub proof fn lemma_upsert_len<T: Keyed>(s: Seq<T>, item: T)
    ensures
        upserted(s, item).len() == if has_key(s, item.key_of()) {
            s.len()
        } else {
            s.len() + 1
        },
{
    if has_key(s, item.key_of()) {
        lemma_has_key_first(s, item.key_of());
    }
}

/// Recording the same entry twice is the same as recording it once.
pub proof fn lemma_upsert_idempotent<T: Keyed>(s: Seq<T>, item: T)
    ensures
        upserted(upserted(s, item), item) == upserted(s, item),
{
    let k = item.key_of();
    let u = upserted(s, item);
    if has_key(s, k) {
        lemma_has_key_first(s, k);
    }
    let f = if has_key(s, k) { first_index_of_key(s, k) } else { s.len() as int };
    assert(is_first_with_key(u, k, f)) by {
        assert forall|j: int| 0 <= j < f implies #[trigger] u[j].key_of() != k by {
            assert(u[j] == s[j]);
        }
    }
    lemma_first_index_unique(u, k, f);
    assert(upserted(u, item) =~= u);
}

} // verus!
