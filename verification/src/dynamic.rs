//! Dynamic values: what a loosely typed host hands over where the client
//! expects a record, before anything is known of its shape.

use crate::metadata::{Float32, Float64};
use vstd::prelude::*;

verus! {

/// A number of the host, in each of the readings that the client takes of
/// one: as a 64-bit float, as a 32-bit float, and, where it is a whole number
/// that fits, as an unsigned 32-bit index.
#[derive(Clone, Copy, Debug, PartialEq, Eq)]
pub struct DynamicNumber {
    pub double: Float64,
    pub single: Float32,
    pub index: Option<u32>,
}

/// A value of the host.
#[derive(Debug, PartialEq, Eq)]
pub enum DynamicValue {
    /// The host's null.
    Null,
    Bool(bool),
    Number(DynamicNumber),
    Text(String),
    List(Vec<DynamicValue>),
    /// A keyed mapping. Of two fields with one key the later one counts.
    Mapping(Vec<DynamicField>),
    /// A keyed mapping with a key that is no text, so that its fields
    /// cannot be read.
    UnreadableMapping,
    /// A value of any other kind.
    Other,
}

/// One item of a keyed mapping of the host: the key, the value, and the text
/// with which the host shows the value when it is asked to debug it.
#[derive(Debug, PartialEq, Eq)]
pub struct DynamicField {
    pub key: String,
    pub value: DynamicValue,
    pub rendering: String,
}

/// A [`DynamicValue`] as a mathematical tree.
pub enum DynamicTree {
    Null,
    Bool(bool),
    Number(DynamicNumber),
    Text(Seq<char>),
    List(Seq<DynamicTree>),
    Mapping(Seq<FieldTree>),
    UnreadableMapping,
    Other,
}

/// A [`DynamicField`] with its texts as sequences and its value as a tree.
pub struct FieldTree {
    pub key: Seq<char>,
    pub value: DynamicTree,
    pub rendering: Seq<char>,
}

/// The trees of the values of a list, in its order.
pub open spec fn items_tree(items: Seq<DynamicValue>) -> Seq<DynamicTree>
    decreases items,
{
    Seq::new(
        items.len(),
        |i: int|
            if 0 <= i < items.len() {
                items[i].tree()
            } else {
                arbitrary()
            },
    )
}

/// The trees of the fields of a mapping, in its order.
pub open spec fn fields_tree(fields: Seq<DynamicField>) -> Seq<FieldTree>
    decreases fields,
{
    Seq::new(
        fields.len(),
        |i: int|
            if 0 <= i < fields.len() {
                fields[i].tree()
            } else {
                arbitrary()
            },
    )
}

impl DynamicValue {
    /// The tree that this value stands for.
    pub open spec fn tree(self) -> DynamicTree
        decreases self,
    {
        match self {
            DynamicValue::Null => DynamicTree::Null,
            DynamicValue::Bool(flag) => DynamicTree::Bool(flag),
            DynamicValue::Number(number) => DynamicTree::Number(number),
            DynamicValue::Text(text) => DynamicTree::Text(text@),
            DynamicValue::List(items) => DynamicTree::List(items_tree(items@)),
            DynamicValue::Mapping(fields) => DynamicTree::Mapping(fields_tree(fields@)),
            DynamicValue::UnreadableMapping => DynamicTree::UnreadableMapping,
            DynamicValue::Other => DynamicTree::Other,
        }
    }
}

impl View for DynamicValue {
    type V = DynamicTree;

    open spec fn view(&self) -> DynamicTree {
        self.tree()
    }
}

impl DynamicField {
    /// The tree that this field stands for.
    pub open spec fn tree(self) -> FieldTree
        decreases self,
    {
        FieldTree { key: self.key@, value: self.value.tree(), rendering: self.rendering@ }
    }
}

impl View for DynamicField {
    type V = FieldTree;

    open spec fn view(&self) -> FieldTree {
        self.tree()
    }
}

} // verus!
