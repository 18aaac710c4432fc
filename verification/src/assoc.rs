//! Tables kept as rows: the first row with a key is the one that counts.

use vstd::prelude::*;

verus! {

/// The first position at which `key` stands in `keys`, or their number.
pub open spec fn position<K>(keys: Seq<K>, key: K) -> int
    decreases keys.len(),
{
    if keys.len() == 0 {
        0
    } else if keys[0] == key {
        0
    } else {
        1 + position(keys.skip(1), key)
    }
}

/// `position` is within bounds, finds the key, and passes no row that has it.
pub proof fn lemma_position<K>(keys: Seq<K>, key: K)
    ensures
        0 <= position(keys, key) <= keys.len(),
        position(keys, key) < keys.len() ==> keys[position(keys, key)] == key,
        forall|j: int| 0 <= j < position(keys, key) ==> keys[j] != key,
    decreases keys.len(),
{
    if keys.len() != 0 && keys[0] != key {
        lemma_position(keys.skip(1), key);
        assert forall|j: int| 0 <= j < position(keys, key) implies keys[j] != key by {
            if j > 0 {
                assert(keys.skip(1)[j - 1] == keys[j]);
            }
        }
    }
}

/// A place that has the key, or is the end, and has no row with the key
/// before it, is the position of the key.
pub proof fn lemma_position_is<K>(keys: Seq<K>, key: K, p: int)
    requires
        0 <= p <= keys.len(),
        p < keys.len() ==> keys[p] == key,
        forall|j: int| 0 <= j < p ==> keys[j] != key,
    ensures
        position(keys, key) == p,
{
    lemma_position(keys, key);
}

/// The map that rows of keys and values stand for.
pub open spec fn lookup<K, V>(keys: Seq<K>, values: Seq<V>) -> Map<K, V> {
    Map::new(|k: K| position(keys, k) < keys.len(), |k: K| values[position(keys, k)])
}

/// Putting a value in the row of its key, or in a new last row if the
/// key has none, is insertion into the map.
pub proof fn lemma_put<K, V>(keys: Seq<K>, values: Seq<V>, key: K, value: V)
    requires
        keys.len() == values.len(),
    ensures
        position(keys, key) < keys.len() ==> lookup(
            keys,
            values.update(position(keys, key), value),
        ) == lookup(keys, values).insert(key, value),
        position(keys, key) == keys.len() ==> lookup(keys.push(key), values.push(value))
            == lookup(keys, values).insert(key, value),
{
    let p = position(keys, key);
    let wanted = lookup(keys, values).insert(key, value);
    lemma_position(keys, key);
    if p < keys.len() {
        let got = lookup(keys, values.update(p, value));
        assert forall|k: K|
            got.contains_key(k) == wanted.contains_key(k) && (got.contains_key(k) ==> got[k]
                == wanted[k]) by {
            lemma_position(keys, k);
        }
        assert(got =~= wanted);
    } else {
        let more = keys.push(key);
        let got = lookup(more, values.push(value));
        lemma_position_is(more, key, p);
        assert forall|k: K| k != key implies position(more, k) == (if position(keys, k)
            < keys.len() {
            position(keys, k)
        } else {
            more.len() as int
        }) by {
            lemma_position(keys, k);
            let q = position(keys, k);
            if q < keys.len() {
                lemma_position_is(more, k, q);
            } else {
                lemma_position_is(more, k, more.len() as int);
            }
        }
        assert forall|k: K| #[trigger] got.dom().contains(k) == wanted.dom().contains(k) by {
            lemma_position(keys, k);
        }
        assert forall|k: K| #[trigger] got.dom().contains(k) implies got[k] == wanted[k] by {
            lemma_position(keys, k);
        }
        assert(got =~= wanted);
    }
}

} // verus!
