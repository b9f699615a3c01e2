//! Sequences of records read as maps: the mathematical side of a table that
//! keeps its records in a vector and finds them by key.

use vstd::prelude::*;

verus! {

/// No key occurs twice in `keys`.
pub open spec fn distinct<K>(keys: Seq<K>) -> bool {
    forall|i: int, j: int| 0 <= i < j < keys.len() ==> keys[i] != keys[j]
}

/// A position at which `k` stands in `keys`, where there is one.
pub open spec fn position_of<K>(keys: Seq<K>, k: K) -> int {
    choose|i: int| 0 <= i < keys.len() && keys[i] == k
}

/// The map that sends each key of `keys` to the value standing at the key's
/// position in `vals`.
pub open spec fn table<K, V>(keys: Seq<K>, vals: Seq<V>) -> Map<K, V> {
    Map::new(|k: K| keys.contains(k), |k: K| vals[position_of(keys, k)])
}

/// Where keys are distinct, the table holds at each key the value of the same
/// position.
pub proof fn lemma_table_at<K, V>(keys: Seq<K>, vals: Seq<V>, i: int)
    requires
        distinct(keys),
        keys.len() == vals.len(),
        0 <= i < keys.len(),
    ensures
        table(keys, vals).contains_key(keys[i]),
        table(keys, vals)[keys[i]] == vals[i],
{
    assert(keys.contains(keys[i]));
    let j = position_of(keys, keys[i]);
    assert(0 <= j < keys.len() && keys[j] == keys[i]);
    assert(j == i);
}

/// A key of the table stands at some position, with its value.
pub proof fn lemma_table_key<K, V>(keys: Seq<K>, vals: Seq<V>, k: K)
    requires
        distinct(keys),
        keys.len() == vals.len(),
        table(keys, vals).contains_key(k),
    ensures
        0 <= position_of(keys, k) < keys.len(),
        keys[position_of(keys, k)] == k,
        table(keys, vals)[k] == vals[position_of(keys, k)],
{
    assert(keys.contains(k));
}

/// A key that stands nowhere in `keys` is no key of the table.
pub proof fn lemma_table_absent<K, V>(keys: Seq<K>, vals: Seq<V>, k: K)
    requires
        forall|i: int| 0 <= i < keys.len() ==> keys[i] != k,
    ensures
        !table(keys, vals).contains_key(k),
{
}

/// Appending a record under a new key inserts it into the table.
pub proof fn lemma_table_push<K, V>(keys: Seq<K>, vals: Seq<V>, k: K, v: V)
    requires
        distinct(keys),
        keys.len() == vals.len(),
        !keys.contains(k),
    ensures
        distinct(keys.push(k)),
        table(keys.push(k), vals.push(v)) == table(keys, vals).insert(k, v),
{
    let keys2 = keys.push(k);
    let vals2 = vals.push(v);
    assert forall|i: int, j: int| 0 <= i < j < keys2.len() implies keys2[i] != keys2[j] by {
        if j == keys.len() {
            assert(keys.contains(keys[i]));
        }
    }
    assert forall|q: K| table(keys2, vals2).contains_key(q) <==> table(keys, vals).insert(
        k,
        v,
    ).contains_key(q) by {
        if keys.contains(q) {
            let i = position_of(keys, q);
            assert(keys2[i] == q);
        }
        if keys2.contains(q) && q != k {
            let i = position_of(keys2, q);
            assert(keys[i] == q);
        }
        assert(keys2[keys.len() as int] == k);
    }
    assert forall|q: K| table(keys2, vals2).contains_key(q) implies table(keys2, vals2)[q]
        == table(keys, vals).insert(k, v)[q] by {
        let i = position_of(keys2, q);
        lemma_table_at(keys2, vals2, i);
        if i < keys.len() {
            lemma_table_at(keys, vals, i);
        }
    }
    assert(table(keys2, vals2) =~= table(keys, vals).insert(k, v));
}

/// Replacing the value at a position, under the same key, overwrites the
/// key's entry in the table.
pub proof fn lemma_table_update<K, V>(keys: Seq<K>, vals: Seq<V>, i: int, v: V)
    requires
        distinct(keys),
        keys.len() == vals.len(),
        0 <= i < keys.len(),
    ensures
        table(keys, vals.update(i, v)) == table(keys, vals).insert(keys[i], v),
{
    let vals2 = vals.update(i, v);
    assert(keys.contains(keys[i]));
    assert forall|q: K| table(keys, vals2).contains_key(q) implies table(keys, vals2)[q] == table(
        keys,
        vals,
    ).insert(keys[i], v)[q] by {
        let j = position_of(keys, q);
        lemma_table_at(keys, vals2, j);
        lemma_table_at(keys, vals, j);
    }
    assert(table(keys, vals2) =~= table(keys, vals).insert(keys[i], v));
}

/// Taking the record at a position out removes its key from the table.
pub proof fn lemma_table_remove<K, V>(keys: Seq<K>, vals: Seq<V>, i: int)
    requires
        distinct(keys),
        keys.len() == vals.len(),
        0 <= i < keys.len(),
    ensures
        distinct(keys.remove(i)),
        table(keys.remove(i), vals.remove(i)) == table(keys, vals).remove(keys[i]),
{
    let keys2 = keys.remove(i);
    let vals2 = vals.remove(i);
    assert forall|a: int, b: int| 0 <= a < b < keys2.len() implies keys2[a] != keys2[b] by {
        let a0 = if a < i { a } else { a + 1 };
        let b0 = if b < i { b } else { b + 1 };
        assert(keys2[a] == keys[a0] && keys2[b] == keys[b0]);
    }
    assert forall|q: K| table(keys2, vals2).contains_key(q) <==> table(keys, vals).remove(
        keys[i],
    ).contains_key(q) by {
        if keys2.contains(q) {
            let a = position_of(keys2, q);
            let a0 = if a < i { a } else { a + 1 };
            assert(keys[a0] == q);
        }
        if keys.contains(q) && q != keys[i] {
            let a0 = position_of(keys, q);
            let a = if a0 < i { a0 } else { a0 - 1 };
            assert(keys2[a] == q);
        }
    }
    assert forall|q: K| table(keys2, vals2).contains_key(q) implies table(keys2, vals2)[q]
        == table(keys, vals).remove(keys[i])[q] by {
        let a = position_of(keys2, q);
        let a0 = if a < i { a } else { a + 1 };
        lemma_table_at(keys2, vals2, a);
        lemma_table_at(keys, vals, a0);
    }
    assert(table(keys2, vals2) =~= table(keys, vals).remove(keys[i]));
}

} // verus!
