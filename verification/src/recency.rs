//! Entries kept by recency, the most recent first: what looking up, storing and
//! removing do to them.

use vstd::prelude::*;

verus! {

/// Entries of a cache, the most recently used first.
#[verifier::external_type_specification]
#[verifier::external_body]
#[verifier::reject_recursive_types(K)]
#[verifier::reject_recursive_types(V)]
#[verifier::reject_recursive_types(S)]
pub struct ExLruCache<K, V, S>(lru::LruCache<K, V, S>);

/// Hasher of caches that are made without one.
#[verifier::external_type_specification]
#[verifier::external_body]
pub struct ExLruDefaultHasher(lru::DefaultHasher);

/// Largest capacity of a cache: its table has to fit into memory.
pub open spec fn max_cache_capacity() -> usize {
    usize::MAX / 128
}

/// Whether some entry has a key.
pub open spec fn has_key<K, V>(entries: Seq<(K, V)>, key: K) -> bool {
    exists|i: int| 0 <= i < entries.len() && (#[trigger] entries[i]).0 == key
}

/// The value of a key.
pub open spec fn lookup<K, V>(entries: Seq<(K, V)>, key: K) -> Option<V>
    decreases entries.len(),
{
    if entries.len() == 0 {
        None
    } else if entries.last().0 == key {
        Some(entries.last().1)
    } else {
        lookup(entries.drop_last(), key)
    }
}

/// The entries but that of a key.
pub open spec fn without<K, V>(entries: Seq<(K, V)>, key: K) -> Seq<(K, V)>
    decreases entries.len(),
{
    if entries.len() == 0 {
        entries
    } else if entries.last().0 == key {
        without(entries.drop_last(), key)
    } else {
        without(entries.drop_last(), key).push(entries.last())
    }
}

/// The entries after a key was looked up: its entry is the most recent.
pub open spec fn touched<K, V>(entries: Seq<(K, V)>, key: K) -> Seq<(K, V)> {
    match lookup(entries, key) {
        Some(value) => seq![(key, value)] + without(entries, key),
        None => entries,
    }
}

/// The entries after a value was stored: its entry is the most recent. A new key
/// in a full cache takes the place of the least recent entry.
pub open spec fn stored<K, V>(entries: Seq<(K, V)>, capacity: nat, key: K, value: V) -> Seq<
    (K, V),
> {
    if has_key(entries, key) {
        seq![(key, value)] + without(entries, key)
    } else if entries.len() == capacity {
        seq![(key, value)] + entries.drop_last()
    } else {
        seq![(key, value)] + entries
    }
}

/// Whether no key occurs twice.
pub open spec fn distinct_keys<K, V>(entries: Seq<(K, V)>) -> bool {
    forall|i: int, j: int|
        0 <= i < entries.len() && 0 <= j < entries.len() && (#[trigger] entries[i]).0 == (
        #[trigger] entries[j]).0 ==> i == j
}

/// The keys of the entries.
pub open spec fn keys_of<K, V>(entries: Seq<(K, V)>) -> Seq<K> {
    Seq::new(entries.len(), |i: int| entries[i].0)
}

/// A key has a value exactly where some entry has it.
pub proof fn lemma_lookup<K, V>(entries: Seq<(K, V)>, key: K)
    ensures
        (lookup(entries, key) is Some) == has_key(entries, key),
        lookup(entries, key) matches Some(value) ==> exists|i: int|
            0 <= i < entries.len() && #[trigger] entries[i] == (key, value),
    decreases entries.len(),
{
    if entries.len() > 0 {
        let front = entries.drop_last();
        lemma_lookup(front, key);
        if entries.last().0 == key {
            assert(entries[entries.len() - 1] == (key, entries.last().1));
        } else {
            if has_key(front, key) {
                let i = choose|i: int| 0 <= i < front.len() && (#[trigger] front[i]).0 == key;
                assert(entries[i].0 == key);
            }
            if has_key(entries, key) {
                let i = choose|i: int| 0 <= i < entries.len() && (#[trigger] entries[i]).0 == key;
                assert(front[i].0 == key);
            }
            if lookup(front, key) is Some {
                let value = lookup(front, key).unwrap();
                let i = choose|i: int| 0 <= i < front.len() && #[trigger] front[i] == (key, value);
                assert(entries[i] == (key, value));
            }
        }
    }
}

/// With distinct keys, the entry at a place is that of its key.
pub proof fn lemma_lookup_at<K, V>(entries: Seq<(K, V)>, i: int)
    requires
        distinct_keys(entries),
        0 <= i < entries.len(),
    ensures
        lookup(entries, entries[i].0) == Some(entries[i].1),
{
    let key = entries[i].0;
    lemma_lookup(entries, key);
    assert(has_key(entries, key));
    let value = lookup(entries, key).unwrap();
    let j = choose|j: int| 0 <= j < entries.len() && #[trigger] entries[j] == (key, value);
    assert(entries[i].0 == entries[j].0);
}

/// Leaving an entry out keeps all others, in their order.
pub proof fn lemma_without<K, V>(entries: Seq<(K, V)>, key: K)
    requires
        distinct_keys(entries),
    ensures
        distinct_keys(without(entries, key)),
        !has_key(without(entries, key), key),
        without(entries, key).len() == entries.len() - (if has_key(entries, key) {
            1int
        } else {
            0int
        }),
        forall|other: K|
            other != key ==> #[trigger] lookup(without(entries, key), other) == lookup(
                entries,
                other,
            ),
        forall|i: int|
            0 <= i < without(entries, key).len() ==> exists|j: int|
                0 <= j < entries.len() && entries[j] == #[trigger] without(entries, key)[i],
    decreases entries.len(),
{
    if entries.len() > 0 {
        let front = entries.drop_last();
        let last = entries.last();
        assert(distinct_keys(front)) by {
            assert forall|i: int, j: int|
                0 <= i < front.len() && 0 <= j < front.len() && (#[trigger] front[i]).0 == (
                #[trigger] front[j]).0 implies i == j by {
                assert(entries[i].0 == entries[j].0);
            }
        }
        lemma_without(front, key);
        let rest = without(front, key);
        let out = without(entries, key);
        assert(!has_key(front, last.0)) by {
            if has_key(front, last.0) {
                let i = choose|i: int| 0 <= i < front.len() && (#[trigger] front[i]).0 == last.0;
                assert(entries[i].0 == entries[entries.len() - 1].0);
            }
        }
        if has_key(front, key) {
            let i = choose|i: int| 0 <= i < front.len() && (#[trigger] front[i]).0 == key;
            assert(entries[i].0 == key);
        }
        if has_key(entries, key) && last.0 != key {
            let i = choose|i: int| 0 <= i < entries.len() && (#[trigger] entries[i]).0 == key;
            assert(front[i].0 == key);
        }
        if last.0 == key {
            assert(entries[entries.len() - 1].0 == key);
        }
        assert forall|i: int| 0 <= i < out.len() implies exists|j: int|
            0 <= j < entries.len() && entries[j] == #[trigger] out[i] by {
            if i < rest.len() {
                assert(out[i] == rest[i]);
                let j = choose|j: int| 0 <= j < front.len() && front[j] == rest[i];
                assert(entries[j] == out[i]);
            } else {
                assert(entries[entries.len() - 1] == out[i]);
            }
        }
        if last.0 != key {
            assert(out =~= rest.push(last));
            assert(out.drop_last() =~= rest);
            assert(!has_key(rest, last.0)) by {
                if has_key(rest, last.0) {
                    let i = choose|i: int| 0 <= i < rest.len() && (#[trigger] rest[i]).0 == last.0;
                    let j = choose|j: int| 0 <= j < front.len() && front[j] == rest[i];
                    assert(front[j].0 == last.0);
                }
            }
            assert forall|i: int, j: int|
                0 <= i < out.len() && 0 <= j < out.len() && (#[trigger] out[i]).0 == (
                #[trigger] out[j]).0 implies i == j by {
                if i < rest.len() && j < rest.len() {
                    assert(rest[i].0 == rest[j].0);
                } else if i < rest.len() {
                    assert(rest[i].0 == last.0);
                } else if j < rest.len() {
                    assert(rest[j].0 == last.0);
                }
            }
            assert(!has_key(out, key)) by {
                if has_key(out, key) {
                    let i = choose|i: int| 0 <= i < out.len() && (#[trigger] out[i]).0 == key;
                    assert(rest[i].0 == key);
                }
            }
        }
        assert forall|other: K| other != key implies #[trigger] lookup(out, other) == lookup(
            entries,
            other,
        ) by {
            assert(lookup(rest, other) == lookup(front, other));
        }
    }
}

proof fn lemma_push_front<K, V>(rest: Seq<(K, V)>, key: K, value: V)
    requires
        distinct_keys(rest),
        !has_key(rest, key),
    ensures
        distinct_keys(seq![(key, value)] + rest),
        lookup(seq![(key, value)] + rest, key) == Some(value),
        forall|other: K|
            other != key ==> #[trigger] lookup(seq![(key, value)] + rest, other) == lookup(
                rest,
                other,
            ),
    decreases rest.len(),
{
    let all = seq![(key, value)] + rest;
    assert forall|i: int, j: int|
        0 <= i < all.len() && 0 <= j < all.len() && (#[trigger] all[i]).0 == (
        #[trigger] all[j]).0 implies i == j by {
        if i > 0 && j > 0 {
            assert(rest[i - 1].0 == rest[j - 1].0);
        } else if i > 0 {
            assert(rest[i - 1].0 == key);
        } else if j > 0 {
            assert(rest[j - 1].0 == key);
        }
    }
    if rest.len() == 0 {
        assert(all.drop_last() =~= rest);
        assert(all.last() == (key, value));
    } else {
        let front = rest.drop_last();
        assert(all.drop_last() =~= seq![(key, value)] + front);
        assert(all.last() == rest.last());
        assert(rest[rest.len() - 1].0 != key);
        assert(distinct_keys(front)) by {
            assert forall|i: int, j: int|
                0 <= i < front.len() && 0 <= j < front.len() && (#[trigger] front[i]).0 == (
                #[trigger] front[j]).0 implies i == j by {
                assert(rest[i].0 == rest[j].0);
            }
        }
        assert(!has_key(front, key)) by {
            if has_key(front, key) {
                let i = choose|i: int| 0 <= i < front.len() && (#[trigger] front[i]).0 == key;
                assert(rest[i].0 == key);
            }
        }
        lemma_push_front(front, key, value);
        assert forall|other: K| other != key implies #[trigger] lookup(all, other) == lookup(
            rest,
            other,
        ) by {
            assert(lookup(seq![(key, value)] + front, other) == lookup(front, other));
        }
    }
}

proof fn lemma_drop_last<K, V>(entries: Seq<(K, V)>)
    requires
        distinct_keys(entries),
        entries.len() > 0,
    ensures
        distinct_keys(entries.drop_last()),
        lookup(entries.drop_last(), entries.last().0) is None,
        forall|other: K|
            other != entries.last().0 ==> #[trigger] lookup(entries.drop_last(), other) == lookup(
                entries,
                other,
            ),
        forall|key: K|
            #[trigger] has_key(entries.drop_last(), key) ==> has_key(entries, key),
{
    let front = entries.drop_last();
    assert forall|i: int, j: int|
        0 <= i < front.len() && 0 <= j < front.len() && (#[trigger] front[i]).0 == (
        #[trigger] front[j]).0 implies i == j by {
        assert(entries[i].0 == entries[j].0);
    }
    lemma_lookup(front, entries.last().0);
    if has_key(front, entries.last().0) {
        let i = choose|i: int|
            0 <= i < front.len() && (#[trigger] front[i]).0 == entries.last().0;
        assert(entries[i].0 == entries[entries.len() - 1].0);
    }
    assert forall|key: K| #[trigger] has_key(front, key) implies has_key(entries, key) by {
        let i = choose|i: int| 0 <= i < front.len() && (#[trigger] front[i]).0 == key;
        assert(entries[i].0 == key);
    }
}

/// Looking a key up changes no value, only the order of use.
pub proof fn touching_keeps_values<K, V>(entries: Seq<(K, V)>, key: K)
    requires
        distinct_keys(entries),
    ensures
        distinct_keys(touched(entries, key)),
        touched(entries, key).len() == entries.len(),
        forall|other: K| #[trigger]
            lookup(touched(entries, key), other) == lookup(entries, other),
        has_key(entries, key) ==> touched(entries, key)[0].0 == key,
{
    lemma_lookup(entries, key);
    lemma_without(entries, key);
    match lookup(entries, key) {
        Some(value) => {
            lemma_push_front(without(entries, key), key, value);
        },
        None => {},
    }
}

/// A read gives back what was stored last. Of the other keys at most one loses its
/// value: in a full cache that a new key enters, the least recently used.
pub proof fn storing_evicts_least_recent<K, V>(
    entries: Seq<(K, V)>,
    capacity: nat,
    key: K,
    value: V,
)
    requires
        distinct_keys(entries),
        0 < capacity,
        entries.len() <= capacity,
    ensures
        distinct_keys(stored(entries, capacity, key, value)),
        stored(entries, capacity, key, value).len() <= capacity,
        lookup(stored(entries, capacity, key, value), key) == Some(value),
        forall|other: K|
            other != key ==> #[trigger] lookup(stored(entries, capacity, key, value), other) == (
            if !has_key(entries, key) && entries.len() == capacity && other == entries.last().0 {
                None
            } else {
                lookup(entries, other)
            }),
{
    lemma_without(entries, key);
    if has_key(entries, key) {
        lemma_push_front(without(entries, key), key, value);
    } else if entries.len() == capacity {
        lemma_drop_last(entries);
        lemma_push_front(entries.drop_last(), key, value);
    } else {
        lemma_push_front(entries, key, value);
    }
}

/// Removing an entry changes no other.
pub proof fn removing_keeps_others<K, V>(entries: Seq<(K, V)>, key: K)
    requires
        distinct_keys(entries),
    ensures
        distinct_keys(without(entries, key)),
        lookup(without(entries, key), key) is None,
        forall|other: K|
            other != key ==> #[trigger] lookup(without(entries, key), other) == lookup(
                entries,
                other,
            ),
{
    lemma_without(entries, key);
    lemma_lookup(without(entries, key), key);
}

/// Leaving a key out of two joined lists leaves it out of both.
pub proof fn lemma_without_joined<K, V>(a: Seq<(K, V)>, b: Seq<(K, V)>, key: K)
    ensures
        without(a + b, key) == without(a, key) + without(b, key),
    decreases b.len(),
{
    if b.len() == 0 {
        assert(a + b =~= a);
        assert(without(a, key) + without(b, key) =~= without(a, key));
    } else {
        assert((a + b).drop_last() =~= a + b.drop_last());
        lemma_without_joined(a, b.drop_last(), key);
        assert(without(a + b, key) =~= without(a, key) + without(b, key));
    }
}

/// Leaving out a key that no entry has changes nothing.
pub proof fn lemma_without_absent<K, V>(entries: Seq<(K, V)>, key: K)
    requires
        !has_key(entries, key),
    ensures
        without(entries, key) == entries,
    decreases entries.len(),
{
    if entries.len() > 0 {
        assert(entries[entries.len() - 1].0 != key);
        assert(!has_key(entries.drop_last(), key)) by {
            if has_key(entries.drop_last(), key) {
                let i = choose|i: int|
                    0 <= i < entries.drop_last().len() && (#[trigger] entries.drop_last()[i]).0
                        == key;
                assert(entries[i].0 == key);
            }
        }
        lemma_without_absent(entries.drop_last(), key);
        assert(entries =~= entries.drop_last().push(entries.last()));
    }
}

/// Leaving out the first entry, whose key no other has, keeps the others.
pub proof fn lemma_without_first<K, V>(first: (K, V), rest: Seq<(K, V)>)
    requires
        !has_key(rest, first.0),
    ensures
        without(seq![first] + rest, first.0) == rest,
    decreases rest.len(),
{
    let all = seq![first] + rest;
    if rest.len() == 0 {
        reveal_with_fuel(without, 2);
        assert(all.drop_last() =~= rest);
    } else {
        let front = rest.drop_last();
        assert(!has_key(front, first.0)) by {
            if has_key(front, first.0) {
                let i = choose|i: int| 0 <= i < front.len() && (#[trigger] front[i]).0 == first.0;
                assert(rest[i].0 == first.0);
            }
        }
        assert(rest[rest.len() - 1].0 != first.0);
        lemma_without_first(first, front);
        assert(all.drop_last() =~= seq![first] + front);
        assert(front.push(rest.last()) =~= rest);
    }
}

/// Entries that are not touched keep their order of use, and the stored or touched one comes
/// first.
pub proof fn the_others_keep_their_order<K, V>(
    entries: Seq<(K, V)>,
    capacity: nat,
    key: K,
    value: V,
)
    requires
        distinct_keys(entries),
        0 < capacity,
        entries.len() <= capacity,
    ensures
        without(entries, key) == entries.filter(|entry: (K, V)| entry.0 != key),
        stored(entries, capacity, key, value)[0] == (key, value),
        has_key(entries, key) ==> stored(entries, capacity, key, value).skip(1) == without(
            entries,
            key,
        ),
        has_key(entries, key) ==> touched(entries, key).skip(1) == without(entries, key),
        !has_key(entries, key) && entries.len() < capacity ==> stored(
            entries,
            capacity,
            key,
            value,
        ).skip(1) == entries,
        !has_key(entries, key) ==> touched(entries, key) == entries,
{
    lemma_without_is_filter(entries, key);
    lemma_lookup(entries, key);
    if has_key(entries, key) {
        assert(stored(entries, capacity, key, value).skip(1) =~= without(entries, key));
        assert(touched(entries, key).skip(1) =~= without(entries, key));
    } else if entries.len() < capacity {
        assert(stored(entries, capacity, key, value).skip(1) =~= entries);
    }
}

proof fn lemma_without_is_filter<K, V>(entries: Seq<(K, V)>, key: K)
    ensures
        without(entries, key) == entries.filter(|entry: (K, V)| entry.0 != key),
    decreases entries.len(),
{
    reveal(Seq::filter);
    if entries.len() > 0 {
        lemma_without_is_filter(entries.drop_last(), key);
    }
}

} // verus!
