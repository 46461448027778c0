//! Association lists: a sequence of pairs read as a map from the first
//! component to the second, where the last pair with a key is the one that
//! counts.

use vstd::prelude::*;

verus! {

/// Where the key `key` stands in `entries`, if it occurs.
pub open spec fn position<K, V>(entries: Seq<(K, V)>, key: K) -> Option<int>
    decreases entries.len(),
{
    if entries.len() == 0 {
        None
    } else if entries.last().0 == key {
        Some(entries.len() - 1)
    } else {
        position(entries.drop_last(), key)
    }
}

/// The value stored under `key`, if any.
pub open spec fn lookup<K, V>(entries: Seq<(K, V)>, key: K) -> Option<V> {
    match position(entries, key) {
        Some(i) => Some(entries[i].1),
        None => None,
    }
}

/// `entries` after storing `value` under `key`: an existing entry is
/// overwritten in place, a new one is appended.
pub open spec fn put<K, V>(entries: Seq<(K, V)>, key: K, value: V) -> Seq<(K, V)> {
    match position(entries, key) {
        Some(i) => entries.update(i, (key, value)),
        None => entries.push((key, value)),
    }
}

/// Whether no key occurs twice in `entries`.
pub open spec fn distinct_keys<K, V>(entries: Seq<(K, V)>) -> bool {
    forall|i: int, j: int|
        0 <= i < j < entries.len() ==> (#[trigger] entries[i]).0 != (#[trigger] entries[j]).0
}

/// `position` answers with the last entry that has the key, and with `None`
/// only where no entry has it.
pub proof fn position_facts<K, V>(entries: Seq<(K, V)>, key: K)
    ensures
        match position(entries, key) {
            Some(i) => 0 <= i < entries.len() && entries[i].0 == key && forall|j: int|
                i < j < entries.len() ==> (#[trigger] entries[j]).0 != key,
            None => forall|j: int| 0 <= j < entries.len() ==> (#[trigger] entries[j]).0 != key,
        },
    decreases entries.len(),
{
    if entries.len() > 0 && entries.last().0 != key {
        let front = entries.drop_last();
        position_facts(front, key);
        assert forall|j: int| 0 <= j < front.len() implies front[j] == entries[j] by {}
        match position(front, key) {
            Some(i) => {
                assert forall|j: int| i < j < entries.len() implies (#[trigger] entries[j]).0
                    != key by {
                    if j < front.len() {
                        assert(front[j] == entries[j]);
                    }
                }
            },
            None => {
                assert forall|j: int| 0 <= j < entries.len() implies (#[trigger] entries[j]).0
                    != key by {
                    if j < front.len() {
                        assert(front[j] == entries[j]);
                    }
                }
            },
        }
    }
}

/// The last entry that has the key is the one `position` answers with.
pub proof fn position_found<K, V>(entries: Seq<(K, V)>, key: K, i: int)
    requires
        0 <= i < entries.len(),
        entries[i].0 == key,
        forall|j: int| i < j < entries.len() ==> (#[trigger] entries[j]).0 != key,
    ensures
        position(entries, key) == Some(i),
{
    position_facts(entries, key);
    match position(entries, key) {
        Some(k) => {
            if k < i {
                assert(entries[i].0 != key);
            } else if i < k {
                assert(entries[k].0 != key);
            }
        },
        None => {
            assert(entries[i].0 != key);
        },
    }
}

/// Where no entry has the key, `position` answers `None`.
pub proof fn position_absent<K, V>(entries: Seq<(K, V)>, key: K)
    requires
        forall|j: int| 0 <= j < entries.len() ==> (#[trigger] entries[j]).0 != key,
    ensures
        position(entries, key) is None,
{
    position_facts(entries, key);
    match position(entries, key) {
        Some(k) => {
            assert(entries[k].0 != key);
        },
        None => {},
    }
}

/// Storing a value keeps the keys distinct, makes the key found, and leaves
/// every other key as it was.
pub proof fn put_facts<K, V>(entries: Seq<(K, V)>, key: K, value: V)
    requires
        distinct_keys(entries),
    ensures
        distinct_keys(put(entries, key, value)),
        lookup(put(entries, key, value), key) == Some(value),
        forall|other: K|
            other != key ==> lookup(put(entries, key, value), other) == lookup(entries, other),
{
    let after = put(entries, key, value);
    position_facts(entries, key);
    match position(entries, key) {
        Some(i) => {
            assert(after == entries.update(i, (key, value)));
            assert forall|j: int| i < j < after.len() implies (#[trigger] after[j]).0 != key by {
                assert(after[j] == entries[j]);
            }
            position_found(after, key, i);
            assert forall|a: int, b: int| 0 <= a < b < after.len() implies (#[trigger] after[a]).0
                != (#[trigger] after[b]).0 by {
                assert(after[a].0 == entries[a].0);
                assert(after[b].0 == entries[b].0);
            }
        },
        None => {
            assert(after == entries.push((key, value)));
            position_found(after, key, entries.len() as int);
            assert forall|a: int, b: int| 0 <= a < b < after.len() implies (#[trigger] after[a]).0
                != (#[trigger] after[b]).0 by {
                assert(after[a] == entries[a]);
                if b < entries.len() {
                    assert(after[b] == entries[b]);
                }
            }
        },
    }
    assert forall|other: K| other != key implies lookup(after, other) == lookup(
        entries,
        other,
    ) by {
        same_keys_same_position(entries, after, other);
    }
}

/// Two lists of the same length that agree on where `key` stands, and on the
/// values there, answer a lookup of `key` alike.
pub proof fn same_keys_same_position<K, V>(a: Seq<(K, V)>, b: Seq<(K, V)>, key: K)
    requires
        a.len() <= b.len(),
        forall|j: int| 0 <= j < a.len() ==> ((#[trigger] a[j]).0 == key <==> b[j].0 == key),
        forall|j: int| 0 <= j < a.len() && (#[trigger] a[j]).0 == key ==> b[j].1 == a[j].1,
        forall|j: int| a.len() <= j < b.len() ==> (#[trigger] b[j]).0 != key,
    ensures
        lookup(b, key) == lookup(a, key),
{
    position_facts(a, key);
    match position(a, key) {
        Some(i) => {
            assert(a[i].0 == key);
            assert forall|j: int| i < j < b.len() implies (#[trigger] b[j]).0 != key by {
                if j < a.len() {
                    assert(a[j].0 != key);
                }
            }
            position_found(b, key, i);
        },
        None => {
            assert forall|j: int| 0 <= j < b.len() implies (#[trigger] b[j]).0 != key by {
                if j < a.len() {
                    assert(a[j].0 != key);
                }
            }
            position_absent(b, key);
        },
    }
}

} // verus!
