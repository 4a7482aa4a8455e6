//! Wire values: the flat, loosely typed value tree in which metadata travels
//! to and from the store.

use crate::keyed::{ascending, bind, entry_keys, inserted, keys_of, lemma_bound, lookup};
use crate::metadata::Float64;
use vstd::prelude::*;

verus! {

/// One value on the wire. Unlike a metadata value it may be null, or have no
/// kind at all.
#[derive(Debug, PartialEq, Eq)]
pub enum WireValue {
    /// A value whose kind was never set.
    Empty,
    /// The null value.
    NullValue,
    NumberValue(Float64),
    StringValue(String),
    BoolValue(bool),
    StructValue(WireStruct),
    ListValue(Vec<WireValue>),
}

/// The fields of a structure on the wire: a map from names to wire values. No
/// name occurs twice, and the fields stand in ascending order of their names.
#[derive(Debug, PartialEq, Eq)]
pub struct WireStruct {
    fields: Vec<(String, WireValue)>,
}

/// A wire value as a mathematical tree. A number is its bit pattern; a
/// structure is the sequence of its fields.
pub enum WireTree {
    Empty,
    Null,
    Number(u64),
    Text(Seq<char>),
    Flag(bool),
    Struct(Seq<(Seq<char>, WireTree)>),
    List(Seq<WireTree>),
}

impl WireValue {
    /// The tree that this value stands for.
    pub open spec fn tree(self) -> WireTree
        decreases self,
    {
        match self {
            WireValue::Empty => WireTree::Empty,
            WireValue::NullValue => WireTree::Null,
            WireValue::NumberValue(number) => WireTree::Number(number.bits),
            WireValue::StringValue(text) => WireTree::Text(text@),
            WireValue::BoolValue(flag) => WireTree::Flag(flag),
            WireValue::StructValue(fields) => WireTree::Struct(fields.tree()),
            WireValue::ListValue(items) => WireTree::List(
                Seq::new(
                    items.len() as nat,
                    |i: int|
                        if 0 <= i < items.len() {
                            items[i].tree()
                        } else {
                            arbitrary()
                        },
                ),
            ),
        }
    }

    /// A copy of this value.
    pub fn duplicate(&self) -> (r: Self)
        ensures
            r@ == self@,
        decreases self,
    {
        match self {
            WireValue::Empty => WireValue::Empty,
            WireValue::NullValue => WireValue::NullValue,
            WireValue::NumberValue(number) => WireValue::NumberValue(*number),
            WireValue::StringValue(text) => WireValue::StringValue(text.clone()),
            WireValue::BoolValue(flag) => WireValue::BoolValue(*flag),
            WireValue::StructValue(fields) => WireValue::StructValue(fields.duplicate()),
            WireValue::ListValue(items) => WireValue::ListValue(duplicate_items(items)),
        }
    }
}

/// A copy of each value of a list, in its order.
fn duplicate_items(items: &Vec<WireValue>) -> (r: Vec<WireValue>)
    ensures
        WireValue::ListValue(r)@ == WireValue::ListValue(*items)@,
    decreases items,
{
    let mut copies: Vec<WireValue> = Vec::new();
    let mut i: usize = 0;
    while i < items.len()
        invariant
            i <= items.len(),
            copies.len() == i,
            forall|j: int| 0 <= j < i ==> (#[trigger] copies[j])@ == items[j]@,
        decreases items.len() - i,
    {
        proof {
            assert(decreases_to!(*items => items@[i as int]));
        }
        copies.push(items[i].duplicate());
        i = i + 1;
    }
    assert(WireValue::ListValue(copies)@->List_0 =~= WireValue::ListValue(*items)@->List_0);
    copies
}

impl Clone for WireValue {
    fn clone(&self) -> (r: Self)
        ensures
            r@ == self@,
    {
        self.duplicate()
    }
}

impl View for WireValue {
    type V = WireTree;

    open spec fn view(&self) -> WireTree {
        self.tree()
    }
}

impl WireStruct {
    #[verifier::type_invariant]
    spec fn names_ascend(self) -> bool {
        ascending(entry_keys(self.fields@))
    }

    /// The fields of the structure, in ascending order of their names.
    pub closed spec fn tree(self) -> Seq<(Seq<char>, WireTree)>
        decreases self,
    {
        fields_tree(self.fields@)
    }

    /// A copy of this structure.
    pub fn duplicate(&self) -> (r: Self)
        ensures
            r@ == self@,
        decreases self,
    {
        proof {
            use_type_invariant(self);
        }
        let mut copies: Vec<(String, WireValue)> = Vec::new();
        let mut i: usize = 0;
        while i < self.fields.len()
            invariant
                i <= self.fields.len(),
                copies.len() == i,
                forall|j: int|
                    0 <= j < i ==> (#[trigger] copies[j]).0@ == self.fields[j].0@ && copies[j].1@
                        == self.fields[j].1@,
            decreases self.fields.len() - i,
        {
            copies.push((self.fields[i].0.clone(), self.fields[i].1.duplicate()));
            i = i + 1;
        }
        assert(entry_keys(copies@) =~= entry_keys(self.fields@));
        assert(fields_tree(copies@) =~= fields_tree(self.fields@));
        WireStruct { fields: copies }
    }

    /// A structure without fields.
    pub fn new() -> (r: Self)
        ensures
            r@ == Seq::<(Seq<char>, WireTree)>::empty(),
    {
        let fields: Vec<(String, WireValue)> = Vec::new();
        assert(fields_tree(fields@) =~= Seq::<(Seq<char>, WireTree)>::empty());
        assert(entry_keys(fields@) =~= Seq::<Seq<char>>::empty());
        WireStruct { fields }
    }

    /// The number of fields.
    pub fn len(&self) -> (n: usize)
        ensures
            n == self@.len(),
            ascending(keys_of(self@)),
    {
        proof {
            use_type_invariant(self);
            lemma_fields_keys(self.fields@);
        }
        self.fields.len()
    }

    /// The field at place `i` in ascending order of the names, if there are
    /// that many.
    pub fn entry_at(&self, i: usize) -> (r: Option<(&String, &WireValue)>)
        ensures
            ascending(keys_of(self@)),
            match r {
                Some((name, value)) => i < self@.len() && name@ == self@[i as int].0 && value@
                    == self@[i as int].1,
                None => i >= self@.len(),
            },
    {
        proof {
            use_type_invariant(self);
            lemma_fields_keys(self.fields@);
        }
        if i < self.fields.len() {
            Some((&self.fields[i].0, &self.fields[i].1))
        } else {
            None
        }
    }

    /// Sets the field `name` to `value` and returns the value that the field
    /// had before, if there was such a field.
    pub fn insert(&mut self, name: String, value: WireValue) -> (previous: Option<WireValue>)
        ensures
            final(self)@ == inserted(old(self)@, name@, value@),
            ascending(keys_of(final(self)@)),
            match previous {
                Some(before) => lookup(old(self)@, name@) == Some(before@),
                None => lookup(old(self)@, name@) is None,
            },
    {
        proof {
            use_type_invariant(&*self);
            lemma_fields_keys(self.fields@);
        }
        let ghost before = self.fields@;
        // The fields leave the structure while they change: the structure
        // itself is only ever seen with its names in order.
        let mut fields: Vec<(String, WireValue)> = Vec::new();
        core::mem::swap(&mut self.fields, &mut fields);
        let (place, previous) = bind(&mut fields, name, value);
        proof {
            lemma_fields_changed(before, fields@, place as int, name, value, previous is Some);
            lemma_bound(
                fields_tree(before),
                fields_tree(fields@),
                name@,
                value@,
                place as int,
                previous is Some,
            );
            lemma_fields_keys(fields@);
        }
        core::mem::swap(&mut self.fields, &mut fields);
        previous
    }
}

spec fn fields_tree(fields: Seq<(String, WireValue)>) -> Seq<(Seq<char>, WireTree)>
    decreases fields,
{
    Seq::new(
        fields.len(),
        |i: int|
            if 0 <= i < fields.len() {
                (fields[i].0@, fields[i].1.tree())
            } else {
                arbitrary()
            },
    )
}

proof fn lemma_fields_keys(fields: Seq<(String, WireValue)>)
    ensures
        keys_of(fields_tree(fields)) == entry_keys(fields),
{
    assert(keys_of(fields_tree(fields)) =~= entry_keys(fields));
}

proof fn lemma_fields_changed(
    before: Seq<(String, WireValue)>,
    after: Seq<(String, WireValue)>,
    place: int,
    name: String,
    value: WireValue,
    found: bool,
)
    requires
        0 <= place <= before.len(),
        found ==> place < before.len() && after == before.update(place, (name, value)),
        !found ==> after == before.insert(place, (name, value)),
    ensures
        found ==> fields_tree(after) == fields_tree(before).update(place, (name@, value@)),
        !found ==> fields_tree(after) == fields_tree(before).insert(place, (name@, value@)),
{
    if found {
        assert(fields_tree(after) =~= fields_tree(before).update(place, (name@, value@)));
    } else {
        assert(fields_tree(after) =~= fields_tree(before).insert(place, (name@, value@)));
    }
}

impl Clone for WireStruct {
    fn clone(&self) -> (r: Self)
        ensures
            r@ == self@,
    {
        self.duplicate()
    }
}

impl View for WireStruct {
    type V = Seq<(Seq<char>, WireTree)>;

    open spec fn view(&self) -> Seq<(Seq<char>, WireTree)> {
        self.tree()
    }
}

} // verus!
