//! Sequences of entries read as maps from key to value. The ledger keeps
//! each kind of record in a vector in which no key occurs twice; the lemmas
//! here say what adding and replacing an entry does to the map.

use vstd::prelude::*;

verus! {

/// Some entry has this key.
pub open spec fn has_key<K, V>(entries: Seq<(K, V)>, key: K) -> bool {
    exists|i: int| 0 <= i < entries.len() && entries[i].0 == key
}

/// No two entries share a key.
pub open spec fn distinct_keys<K, V>(entries: Seq<(K, V)>) -> bool {
    forall|i: int, j: int| 0 <= i < j < entries.len() ==> entries[i].0 != entries[j].0
}

/// The place of an entry with this key, where there is one.
pub open spec fn index_of<K, V>(entries: Seq<(K, V)>, key: K) -> int {
    choose|i: int| 0 <= i < entries.len() && entries[i].0 == key
}

/// The map that takes each key among the entries to the value beside it.
pub open spec fn table<K, V>(entries: Seq<(K, V)>) -> Map<K, V> {
    Map::new(|key: K| has_key(entries, key), |key: K| entries[index_of(entries, key)].1)
}

/// An entry of a sequence without repeated keys is an entry of its map.
pub proof fn lemma_table_entry<K, V>(entries: Seq<(K, V)>, i: int)
    requires
        distinct_keys(entries),
        0 <= i < entries.len(),
    ensures
        table(entries).dom().contains(entries[i].0),
        table(entries)[entries[i].0] == entries[i].1,
        index_of(entries, entries[i].0) == i,
{
    let key = entries[i].0;
    assert(has_key(entries, key));
    let j = index_of(entries, key);
    assert(0 <= j < entries.len() && entries[j].0 == key);
    if j < i {
        assert(entries[j].0 != entries[i].0);
    } else if i < j {
        assert(entries[i].0 != entries[j].0);
    }
}

/// A key that no entry has is no key of the map.
pub proof fn lemma_table_absent<K, V>(entries: Seq<(K, V)>, key: K)
    requires
        forall|i: int| 0 <= i < entries.len() ==> entries[i].0 != key,
    ensures
        !table(entries).dom().contains(key),
{
}

/// To append an entry with a new key is to insert it into the map.
pub proof fn lemma_table_push<K, V>(entries: Seq<(K, V)>, key: K, value: V)
    requires
        distinct_keys(entries),
        !has_key(entries, key),
    ensures
        distinct_keys(entries.push((key, value))),
        table(entries.push((key, value))) == table(entries).insert(key, value),
{
    let longer = entries.push((key, value));
    assert forall|i: int, j: int| 0 <= i < j < longer.len() implies longer[i].0 != longer[j].0 by {
        if j == entries.len() {
            assert(longer[i] == entries[i]);
            if entries[i].0 == key {
                assert(has_key(entries, key));
            }
        } else {
            assert(longer[i] == entries[i] && longer[j] == entries[j]);
        }
    }
    let last = entries.len() as int;
    assert(longer[last] == (key, value));
    lemma_table_entry(longer, last);
    assert forall|k: K| table(longer).dom().contains(k) <==> table(entries).insert(
        key,
        value,
    ).dom().contains(k) by {
        if has_key(longer, k) {
            let i = index_of(longer, k);
            if i < last {
                assert(entries[i].0 == k);
                assert(has_key(entries, k));
            }
        }
        if has_key(entries, k) {
            let i = index_of(entries, k);
            assert(longer[i].0 == k);
            assert(has_key(longer, k));
        }
        if k == key {
            assert(has_key(longer, k));
        }
    }
    assert forall|k: K| table(longer).dom().contains(k) implies table(longer)[k] == table(
        entries,
    ).insert(key, value)[k] by {
        if k != key {
            let i = index_of(longer, k);
            assert(i < last);
            assert(longer[i] == entries[i]);
            lemma_table_entry(entries, i);
        }
    }
    assert(table(longer) =~= table(entries).insert(key, value));
}

/// To replace the value of an entry is to insert the new value into the
/// map under the entry's key.
pub proof fn lemma_table_update<K, V>(entries: Seq<(K, V)>, i: int, value: V)
    requires
        distinct_keys(entries),
        0 <= i < entries.len(),
    ensures
        distinct_keys(entries.update(i, (entries[i].0, value))),
        table(entries.update(i, (entries[i].0, value))) == table(entries).insert(
            entries[i].0,
            value,
        ),
{
    let key = entries[i].0;
    let changed = entries.update(i, (key, value));
    assert forall|a: int, b: int| 0 <= a < b < changed.len() implies changed[a].0
        != changed[b].0 by {
        assert(changed[a].0 == entries[a].0 && changed[b].0 == entries[b].0);
    }
    lemma_table_entry(changed, i);
    assert forall|k: K| table(changed).dom().contains(k) <==> table(entries).insert(
        key,
        value,
    ).dom().contains(k) by {
        if has_key(changed, k) {
            let j = index_of(changed, k);
            assert(entries[j].0 == k);
            assert(has_key(entries, k));
        }
        if has_key(entries, k) {
            let j = index_of(entries, k);
            assert(changed[j].0 == k);
            assert(has_key(changed, k));
        }
        if k == key {
            assert(has_key(changed, k));
        }
    }
    assert forall|k: K| table(changed).dom().contains(k) implies table(changed)[k] == table(
        entries,
    ).insert(key, value)[k] by {
        if k != key {
            let j = index_of(changed, k);
            assert(changed[j].0 == k);
            assert(j != i);
            assert(changed[j] == entries[j]);
            lemma_table_entry(entries, j);
        }
    }
    assert(table(changed) =~= table(entries).insert(key, value));
}

} // verus!
