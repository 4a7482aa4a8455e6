//! Lists of entries kept in ascending order of their keys: what a map from
//! strings to values is in this crate.
//!
//! A map is modelled by the sequence of its entries, each a key and a value,
//! with the keys strictly ascending. Two maps are then equal exactly when
//! their sequences are.

use crate::text::{
    compare_text, lemma_text_lt_asymmetric, lemma_text_lt_irreflexive, lemma_text_lt_transitive,
    text_lt, TextOrder,
};
use vstd::prelude::*;

verus! {

/// Each key comes strictly before the one after it.
pub open spec fn ascending(keys: Seq<Seq<char>>) -> bool {
    forall|i: int, j: int| 0 <= i < j < keys.len() ==> text_lt(#[trigger] keys[i], #[trigger] keys[j])
}

/// The keys of a sequence of entries, in its order.
pub open spec fn keys_of<T>(entries: Seq<(Seq<char>, T)>) -> Seq<Seq<char>> {
    Seq::new(entries.len(), |i: int| entries[i].0)
}

/// The test "this entry's key comes before `key`".
pub open spec fn key_before<T>(key: Seq<char>) -> spec_fn((Seq<char>, T)) -> bool {
    |entry: (Seq<char>, T)| text_lt(entry.0, key)
}

/// The test "this entry's key comes after `key`".
pub open spec fn key_after<T>(key: Seq<char>) -> spec_fn((Seq<char>, T)) -> bool {
    |entry: (Seq<char>, T)| text_lt(key, entry.0)
}

/// The map `entries` with `key` bound to `value`: the entries below `key`,
/// the new entry, the entries above `key`. An entry that had this key is gone.
pub open spec fn inserted<T>(entries: Seq<(Seq<char>, T)>, key: Seq<char>, value: T) -> Seq<
    (Seq<char>, T),
> {
    entries.filter(key_before(key)).push((key, value)) + entries.filter(key_after(key))
}

/// Some entry has this key.
pub open spec fn has_key<T>(entries: Seq<(Seq<char>, T)>, key: Seq<char>) -> bool {
    exists|i: int| 0 <= i < entries.len() && (#[trigger] entries[i]).0 == key
}

/// The place of the first entry with this key.
pub open spec fn index_of_key<T>(entries: Seq<(Seq<char>, T)>, key: Seq<char>) -> int {
    choose|i: int|
        0 <= i < entries.len() && (#[trigger] entries[i]).0 == key && forall|j: int|
            0 <= j < i ==> (#[trigger] entries[j]).0 != key
}

/// The value of the first entry with this key, if there is one.
pub open spec fn lookup<T>(entries: Seq<(Seq<char>, T)>, key: Seq<char>) -> Option<T> {
    if has_key(entries, key) {
        Some(entries[index_of_key(entries, key)].1)
    } else {
        None
    }
}

/// Where `key` stands among ascending keys: at `place` if `found`, else
/// between the keys before `place` and those from `place` on.
pub open spec fn located(keys: Seq<Seq<char>>, key: Seq<char>, place: int, found: bool) -> bool {
    &&& 0 <= place <= keys.len()
    &&& found ==> place < keys.len() && keys[place] == key
    &&& forall|i: int| 0 <= i < place ==> text_lt(#[trigger] keys[i], key)
    &&& forall|i: int|
        place <= i < keys.len() && !(found && i == place) ==> text_lt(key, #[trigger] keys[i])
}

/// A filter that accepts exactly the entries of one range keeps that range.
pub proof fn lemma_filter_range<A>(s: Seq<A>, pred: spec_fn(A) -> bool, lo: int, hi: int)
    requires
        0 <= lo <= hi <= s.len(),
        forall|i: int| 0 <= i < s.len() ==> (pred(#[trigger] s[i]) <==> lo <= i < hi),
    ensures
        s.filter(pred) == s.subrange(lo, hi),
    decreases s.len(),
{
    reveal(Seq::filter);
    if s.len() == 0 {
        assert(s.filter(pred) =~= s.subrange(lo, hi));
    } else {
        let front = s.drop_last();
        assert forall|i: int| 0 <= i < front.len() implies (pred(#[trigger] front[i]) <==> lo <= i
            < hi) by {
            assert(front[i] == s[i]);
        }
        if lo == hi {
            assert forall|i: int| 0 <= i < front.len() implies (pred(#[trigger] front[i]) <==> 0
                <= i < 0) by {
                assert(front[i] == s[i]);
            }
            lemma_filter_range(front, pred, 0, 0);
            assert(!pred(s.last()));
            assert(s.filter(pred) =~= s.subrange(lo, hi));
        } else if hi == s.len() {
            lemma_filter_range(front, pred, lo, hi - 1);
            assert(pred(s.last()));
            assert(s.filter(pred) =~= s.subrange(lo, hi));
        } else {
            lemma_filter_range(front, pred, lo, hi);
            assert(!pred(s.last()));
            assert(s.filter(pred) =~= s.subrange(lo, hi));
        }
    }
}

/// Binding a key that the map has replaces that entry's value.
pub proof fn lemma_inserted_replaces<T>(
    entries: Seq<(Seq<char>, T)>,
    key: Seq<char>,
    value: T,
    place: int,
)
    requires
        located(keys_of(entries), key, place, true),
    ensures
        inserted(entries, key, value) == entries.update(place, (key, value)),
{
    let keys = keys_of(entries);
    lemma_text_lt_irreflexive(key);
    assert forall|i: int| 0 <= i < entries.len() implies (key_before::<T>(key)(
        #[trigger] entries[i],
    ) <==> 0 <= i < place) by {
        assert(keys[i] == entries[i].0);
        if i > place {
            lemma_text_lt_asymmetric(key, keys[i]);
        }
    }
    assert forall|i: int| 0 <= i < entries.len() implies (key_after::<T>(key)(
        #[trigger] entries[i],
    ) <==> place + 1 <= i < entries.len()) by {
        assert(keys[i] == entries[i].0);
        if i < place {
            lemma_text_lt_asymmetric(keys[i], key);
        }
    }
    lemma_filter_range(entries, key_before(key), 0, place);
    lemma_filter_range(entries, key_after(key), place + 1, entries.len() as int);
    assert(inserted(entries, key, value) =~= entries.update(place, (key, value)));
}

/// Binding a key that the map lacks puts the entry where the key belongs.
pub proof fn lemma_inserted_adds<T>(
    entries: Seq<(Seq<char>, T)>,
    key: Seq<char>,
    value: T,
    place: int,
)
    requires
        located(keys_of(entries), key, place, false),
    ensures
        inserted(entries, key, value) == entries.insert(place, (key, value)),
{
    let keys = keys_of(entries);
    assert forall|i: int| 0 <= i < entries.len() implies (key_before::<T>(key)(
        #[trigger] entries[i],
    ) <==> 0 <= i < place) by {
        assert(keys[i] == entries[i].0);
        if i >= place {
            lemma_text_lt_asymmetric(key, keys[i]);
        }
    }
    assert forall|i: int| 0 <= i < entries.len() implies (key_after::<T>(key)(
        #[trigger] entries[i],
    ) <==> place <= i < entries.len()) by {
        assert(keys[i] == entries[i].0);
        if i < place {
            lemma_text_lt_asymmetric(keys[i], key);
        }
    }
    lemma_filter_range(entries, key_before(key), 0, place);
    lemma_filter_range(entries, key_after(key), place, entries.len() as int);
    assert(inserted(entries, key, value) =~= entries.insert(place, (key, value)));
}

/// A key above every key of the map is bound at the end.
pub proof fn lemma_inserted_appends<T>(entries: Seq<(Seq<char>, T)>, key: Seq<char>, value: T)
    requires
        forall|i: int| 0 <= i < entries.len() ==> text_lt((#[trigger] entries[i]).0, key),
    ensures
        inserted(entries, key, value) == entries.push((key, value)),
{
    let keys = keys_of(entries);
    assert(located(keys, key, entries.len() as int, false)) by {
        assert forall|i: int| 0 <= i < keys.len() implies text_lt(#[trigger] keys[i], key) by {
            assert(keys[i] == entries[i].0);
        }
    }
    lemma_inserted_adds(entries, key, value, entries.len() as int);
    assert(entries.insert(entries.len() as int, (key, value)) =~= entries.push((key, value)));
}

/// Binding a key in a map with ascending keys leaves its keys ascending.
pub proof fn lemma_inserted_ascending<T>(
    entries: Seq<(Seq<char>, T)>,
    key: Seq<char>,
    value: T,
    place: int,
    found: bool,
)
    requires
        ascending(keys_of(entries)),
        located(keys_of(entries), key, place, found),
    ensures
        ascending(keys_of(inserted(entries, key, value))),
{
    let keys = keys_of(entries);
    let after = inserted(entries, key, value);
    let after_keys = keys_of(after);
    if found {
        lemma_inserted_replaces(entries, key, value, place);
        assert(after_keys =~= keys);
    } else {
        lemma_inserted_adds(entries, key, value, place);
        assert forall|i: int, j: int| 0 <= i < j < after_keys.len() implies text_lt(
            #[trigger] after_keys[i],
            #[trigger] after_keys[j],
        ) by {
            let from_i = if i < place {
                i
            } else {
                i - 1
            };
            let from_j = if j < place {
                j
            } else {
                j - 1
            };
            if i != place {
                assert(after_keys[i] == keys[from_i]);
            }
            if j != place {
                assert(after_keys[j] == keys[from_j]);
            }
        }
    }
}

/// In a map with ascending keys, the entry at `place` is the one that
/// `lookup` finds for its key.
pub proof fn lemma_lookup_at<T>(entries: Seq<(Seq<char>, T)>, place: int)
    requires
        ascending(keys_of(entries)),
        0 <= place < entries.len(),
    ensures
        lookup(entries, entries[place].0) == Some(entries[place].1),
{
    let keys = keys_of(entries);
    let key = entries[place].0;
    assert(has_key(entries, key));
    assert forall|j: int| 0 <= j < entries.len() && j != place implies (#[trigger] entries[j]).0
        != key by {
        assert(keys[j] == entries[j].0);
        assert(keys[place] == key);
        lemma_text_lt_irreflexive(key);
    }
    assert(forall|j: int| 0 <= j < place ==> (#[trigger] entries[j]).0 != key);
    let found = index_of_key(entries, key);
    assert(found == place);
}

/// A key that `located` did not find is bound nowhere in the map.
pub proof fn lemma_lookup_absent<T>(entries: Seq<(Seq<char>, T)>, key: Seq<char>, place: int)
    requires
        located(keys_of(entries), key, place, false),
    ensures
        lookup(entries, key) is None,
{
    let keys = keys_of(entries);
    lemma_text_lt_irreflexive(key);
    assert forall|i: int| 0 <= i < entries.len() implies (#[trigger] entries[i]).0 != key by {
        assert(keys[i] == entries[i].0);
    }
}

/// What holds of a map once `key` is bound in it, given where `located` put
/// the key: the map is `inserted`, its keys still ascend, and the value that
/// stood at the key's place is what `lookup` found before.
pub proof fn lemma_bound<T>(
    before: Seq<(Seq<char>, T)>,
    after: Seq<(Seq<char>, T)>,
    key: Seq<char>,
    value: T,
    place: int,
    found: bool,
)
    requires
        ascending(keys_of(before)),
        located(keys_of(before), key, place, found),
        found ==> after == before.update(place, (key, value)),
        !found ==> after == before.insert(place, (key, value)),
    ensures
        after == inserted(before, key, value),
        ascending(keys_of(after)),
        found ==> lookup(before, key) == Some(before[place].1),
        !found ==> lookup(before, key) is None,
{
    lemma_inserted_ascending(before, key, value, place, found);
    if found {
        lemma_inserted_replaces(before, key, value, place);
        assert(before[place].0 == keys_of(before)[place]);
        lemma_lookup_at(before, place);
    } else {
        lemma_inserted_adds(before, key, value, place);
        lemma_lookup_absent(before, key, place);
    }
}

/// The keys of exec entries, as texts.
pub open spec fn entry_keys<V>(entries: Seq<(String, V)>) -> Seq<Seq<char>> {
    Seq::new(entries.len(), |i: int| entries[i].0@)
}

/// Finds where `key` stands among entries whose keys ascend, by bisection.
pub(crate) fn locate<V>(entries: &Vec<(String, V)>, key: &str) -> (r: (usize, bool))
    requires
        ascending(entry_keys(entries@)),
    ensures
        located(entry_keys(entries@), key@, r.0 as int, r.1),
{
    let ghost keys = entry_keys(entries@);
    let mut lo: usize = 0;
    let mut hi: usize = entries.len();
    while lo < hi
        invariant
            0 <= lo <= hi <= entries.len(),
            keys == entry_keys(entries@),
            ascending(keys),
            forall|i: int| 0 <= i < lo ==> text_lt(#[trigger] keys[i], key@),
            forall|i: int| hi <= i < keys.len() ==> text_lt(key@, #[trigger] keys[i]),
        decreases hi - lo,
    {
        let mid = lo + (hi - lo) / 2;
        assert(keys[mid as int] == entries[mid as int].0@);
        match compare_text(entries[mid].0.as_str(), key) {
            TextOrder::Same => {
                proof {
                    assert forall|i: int| 0 <= i < mid implies text_lt(#[trigger] keys[i], key@) by {
                        assert(text_lt(keys[i], keys[mid as int]));
                    }
                    assert forall|i: int| mid < i < keys.len() implies text_lt(
                        key@,
                        #[trigger] keys[i],
                    ) by {
                        assert(text_lt(keys[mid as int], keys[i]));
                    }
                }
                return (mid, true);
            },
            TextOrder::Before => {
                proof {
                    assert forall|i: int| 0 <= i < mid + 1 implies text_lt(
                        #[trigger] keys[i],
                        key@,
                    ) by {
                        if i < mid {
                            assert(text_lt(keys[i], keys[mid as int]));
                            lemma_text_lt_transitive(keys[i], keys[mid as int], key@);
                        }
                    }
                }
                lo = mid + 1;
            },
            TextOrder::After => {
                proof {
                    assert forall|i: int| mid <= i < keys.len() implies text_lt(
                        key@,
                        #[trigger] keys[i],
                    ) by {
                        if mid < i {
                            assert(text_lt(keys[mid as int], keys[i]));
                            lemma_text_lt_transitive(key@, keys[mid as int], keys[i]);
                        }
                    }
                }
                hi = mid;
            },
        }
    }
    (lo, false)
}

/// Binds `key` to `value` among entries whose keys ascend: in the entry that
/// has this key, or else in a new entry where the key belongs. Returns the
/// place of the entry and the value that it held before.
pub(crate) fn bind<V>(entries: &mut Vec<(String, V)>, key: String, value: V) -> (r: (usize, Option<V>))
    requires
        ascending(entry_keys(old(entries)@)),
    ensures
        located(entry_keys(old(entries)@), key@, r.0 as int, r.1 is Some),
        match r.1 {
            Some(before) => final(entries)@ == old(entries)@.update(r.0 as int, (key, value))
                && before == old(entries)@[r.0 as int].1,
            None => final(entries)@ == old(entries)@.insert(r.0 as int, (key, value)),
        },
{
    let (place, found) = locate(entries, key.as_str());
    if found {
        let mut entry = (key, value);
        core::mem::swap(&mut entries[place], &mut entry);
        (place, Some(entry.1))
    } else {
        entries.insert(place, (key, value));
        (place, None)
    }
}

} // verus!
