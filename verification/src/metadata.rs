//! Metadata values: the open, recursive tree of values that a record carries
//! beside its vector, and the map from keys to such values.

use crate::keyed::{
    ascending, bind, entry_keys, inserted, keys_of, lemma_bound, lemma_lookup_absent,
    lemma_lookup_at, locate, lookup,
};
use vstd::prelude::*;

verus! {

/// A 32-bit floating-point number, held as its bit pattern.
#[derive(Clone, Copy, Debug, PartialEq, Eq, Structural)]
pub struct Float32 {
    pub bits: u32,
}

/// A 64-bit floating-point number, held as its bit pattern.
#[derive(Clone, Copy, Debug, PartialEq, Eq, Structural)]
pub struct Float64 {
    pub bits: u64,
}

/// One metadata value.
#[derive(Debug, PartialEq, Eq)]
pub enum MetadataValue {
    StringVal(String),
    BoolVal(bool),
    NumberVal(Float64),
    ListVal(Vec<MetadataValue>),
    DictVal(MetadataMap),
}

/// A map from keys to metadata values. No key occurs twice, and the entries
/// stand in ascending order of their keys.
#[derive(Debug, PartialEq, Eq)]
pub struct MetadataMap {
    entries: Vec<(String, MetadataValue)>,
}

/// A metadata value as a mathematical tree. A number is its bit pattern; a
/// dictionary is the sequence of its entries.
pub enum MetadataTree {
    Text(Seq<char>),
    Flag(bool),
    Number(u64),
    List(Seq<MetadataTree>),
    Dict(Seq<(Seq<char>, MetadataTree)>),
}

impl MetadataValue {
    /// The tree that this value stands for.
    pub open spec fn tree(self) -> MetadataTree
        decreases self,
    {
        match self {
            MetadataValue::StringVal(text) => MetadataTree::Text(text@),
            MetadataValue::BoolVal(flag) => MetadataTree::Flag(flag),
            MetadataValue::NumberVal(number) => MetadataTree::Number(number.bits),
            MetadataValue::ListVal(items) => MetadataTree::List(
                Seq::new(
                    items.len() as nat,
                    |i: int|
                        if 0 <= i < items.len() {
                            items[i].tree()
                        } else {
                            arbitrary()
                        },
                ),
            ),
            MetadataValue::DictVal(map) => MetadataTree::Dict(map.tree()),
        }
    }
}

impl MetadataValue {
    /// A copy of this value.
    pub fn duplicate(&self) -> (r: Self)
        ensures
            r@ == self@,
        decreases self,
    {
        match self {
            MetadataValue::StringVal(text) => MetadataValue::StringVal(text.clone()),
            MetadataValue::BoolVal(flag) => MetadataValue::BoolVal(*flag),
            MetadataValue::NumberVal(number) => MetadataValue::NumberVal(*number),
            MetadataValue::ListVal(items) => MetadataValue::ListVal(duplicate_items(items)),
            MetadataValue::DictVal(map) => MetadataValue::DictVal(map.duplicate()),
        }
    }
}

/// A copy of each value of a list, in its order.
fn duplicate_items(items: &Vec<MetadataValue>) -> (r: Vec<MetadataValue>)
    ensures
        r.len() == items.len(),
        forall|j: int| 0 <= j < items.len() ==> (#[trigger] r[j])@ == items[j]@,
        MetadataValue::ListVal(r)@ == MetadataValue::ListVal(*items)@,
    decreases items,
{
    let mut copies: Vec<MetadataValue> = Vec::new();
    let mut i: usize = 0;
    while i < items.len()
        invariant
            i <= items.len(),
            copies.len() == i,
            forall|j: int| 0 <= j < i ==> (#[trigger] copies[j])@ == items[j]@,
        decreases items.len() - i,
    {
        proof {
            assert(decreases_to!(*items => items@[i as int]));
        }
        copies.push(items[i].duplicate());
        i = i + 1;
    }
    assert(MetadataValue::ListVal(copies)@->List_0 =~= MetadataValue::ListVal(*items)@->List_0);
    copies
}

impl Clone for MetadataValue {
    fn clone(&self) -> (r: Self)
        ensures
            r@ == self@,
    {
        self.duplicate()
    }
}

impl View for MetadataValue {
    type V = MetadataTree;

    open spec fn view(&self) -> MetadataTree {
        self.tree()
    }
}

impl MetadataMap {
    #[verifier::type_invariant]
    spec fn keys_ascend(self) -> bool {
        ascending(entry_keys(self.entries@))
    }

    /// The entries of the map, in ascending order of their keys.
    pub closed spec fn tree(self) -> Seq<(Seq<char>, MetadataTree)>
        decreases self,
    {
        entries_tree(self.entries@)
    }

    proof fn lemma_keys(self)
        ensures
            keys_of(self.tree()) == entry_keys(self.entries@),
    {
        lemma_entries_keys(self.entries@);
    }

    /// A copy of this map.
    pub fn duplicate(&self) -> (r: Self)
        ensures
            r@ == self@,
        decreases self,
    {
        proof {
            use_type_invariant(self);
        }
        let mut copies: Vec<(String, MetadataValue)> = Vec::new();
        let mut i: usize = 0;
        while i < self.entries.len()
            invariant
                i <= self.entries.len(),
                copies.len() == i,
                forall|j: int|
                    0 <= j < i ==> (#[trigger] copies[j]).0@ == self.entries[j].0@ && copies[j].1@
                        == self.entries[j].1@,
            decreases self.entries.len() - i,
        {
            copies.push((self.entries[i].0.clone(), self.entries[i].1.duplicate()));
            i = i + 1;
        }
        assert(entry_keys(copies@) =~= entry_keys(self.entries@));
        assert(entries_tree(copies@) =~= entries_tree(self.entries@));
        MetadataMap { entries: copies }
    }

    /// An empty map.
    pub fn new() -> (r: Self)
        ensures
            r@ == Seq::<(Seq<char>, MetadataTree)>::empty(),
    {
        let entries: Vec<(String, MetadataValue)> = Vec::new();
        assert(entries_tree(entries@) =~= Seq::<(Seq<char>, MetadataTree)>::empty());
        assert(entry_keys(entries@) =~= Seq::<Seq<char>>::empty());
        MetadataMap { entries }
    }

    /// The number of entries.
    pub fn len(&self) -> (n: usize)
        ensures
            n == self@.len(),
            ascending(keys_of(self@)),
    {
        proof {
            use_type_invariant(self);
            self.lemma_keys();
        }
        self.entries.len()
    }

    /// The entry at place `i` in ascending order of the keys, if there are
    /// that many.
    pub fn entry_at(&self, i: usize) -> (r: Option<(&String, &MetadataValue)>)
        ensures
            ascending(keys_of(self@)),
            match r {
                Some((key, value)) => i < self@.len() && key@ == self@[i as int].0 && value@
                    == self@[i as int].1,
                None => i >= self@.len(),
            },
    {
        proof {
            use_type_invariant(self);
            self.lemma_keys();
        }
        if i < self.entries.len() {
            Some((&self.entries[i].0, &self.entries[i].1))
        } else {
            None
        }
    }

    /// The value bound to `key`, if there is one.
    pub fn get(&self, key: &str) -> (r: Option<&MetadataValue>)
        ensures
            match r {
                Some(value) => lookup(self@, key@) == Some(value@),
                None => lookup(self@, key@) is None,
            },
    {
        proof {
            use_type_invariant(self);
            self.lemma_keys();
        }
        let (place, found) = locate(&self.entries, key);
        if found {
            proof {
                lemma_lookup_at(self.tree(), place as int);
                assert(self.tree()[place as int].1 == self.entries[place as int].1@);
            }
            Some(&self.entries[place].1)
        } else {
            proof {
                lemma_lookup_absent(self.tree(), key@, place as int);
            }
            None
        }
    }

    /// Binds `key` to `value` and returns the value that `key` was bound to
    /// before, if it was bound.
    pub fn insert(&mut self, key: String, value: MetadataValue) -> (previous: Option<
        MetadataValue,
    >)
        ensures
            final(self)@ == inserted(old(self)@, key@, value@),
            ascending(keys_of(final(self)@)),
            match previous {
                Some(before) => lookup(old(self)@, key@) == Some(before@),
                None => lookup(old(self)@, key@) is None,
            },
    {
        proof {
            use_type_invariant(&*self);
            lemma_entries_keys(self.entries@);
        }
        let ghost before = self.entries@;
        // The entries leave the map while they change: the map itself is only
        // ever seen with its keys in order.
        let mut entries: Vec<(String, MetadataValue)> = Vec::new();
        core::mem::swap(&mut self.entries, &mut entries);
        let (place, previous) = bind(&mut entries, key, value);
        proof {
            lemma_entries_changed(before, entries@, place as int, key, value, previous is Some);
            lemma_bound(
                entries_tree(before),
                entries_tree(entries@),
                key@,
                value@,
                place as int,
                previous is Some,
            );
            lemma_entries_keys(entries@);
        }
        core::mem::swap(&mut self.entries, &mut entries);
        previous
    }
}

/// The entries of a map as a sequence of keys and trees.
spec fn entries_tree(entries: Seq<(String, MetadataValue)>) -> Seq<
    (Seq<char>, MetadataTree),
>
    decreases entries,
{
    Seq::new(
        entries.len(),
        |i: int|
            if 0 <= i < entries.len() {
                (entries[i].0@, entries[i].1.tree())
            } else {
                arbitrary()
            },
    )
}

proof fn lemma_entries_keys(entries: Seq<(String, MetadataValue)>)
    ensures
        keys_of(entries_tree(entries)) == entry_keys(entries),
{
    assert(keys_of(entries_tree(entries)) =~= entry_keys(entries));
}

proof fn lemma_entries_changed(
    before: Seq<(String, MetadataValue)>,
    after: Seq<(String, MetadataValue)>,
    place: int,
    key: String,
    value: MetadataValue,
    found: bool,
)
    requires
        0 <= place <= before.len(),
        found ==> place < before.len() && after == before.update(place, (key, value)),
        !found ==> after == before.insert(place, (key, value)),
    ensures
        found ==> entries_tree(after) == entries_tree(before).update(place, (key@, value@)),
        !found ==> entries_tree(after) == entries_tree(before).insert(place, (key@, value@)),
{
    if found {
        assert(entries_tree(after) =~= entries_tree(before).update(place, (key@, value@)));
    } else {
        assert(entries_tree(after) =~= entries_tree(before).insert(place, (key@, value@)));
    }
}

impl Clone for MetadataMap {
    fn clone(&self) -> (r: Self)
        ensures
            r@ == self@,
    {
        self.duplicate()
    }
}

impl View for MetadataMap {
    type V = Seq<(Seq<char>, MetadataTree)>;

    open spec fn view(&self) -> Seq<(Seq<char>, MetadataTree)> {
        self.tree()
    }
}

} // verus!
