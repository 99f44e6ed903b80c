//! The change events of an inspector.
//!
//! An inspector does not know the type of the object it shows. It reports an
//! edit as the name of the field that changed and what changed in it: a new
//! value, a change inside the object that the field holds, or a change to the
//! collection that the field holds.

use vstd::prelude::*;
use crate::value::FieldValue;

verus! {

/// One edit: the name of a field, and what changed in it.
#[derive(Debug, PartialEq, Eq)]
pub struct ChangeEvent {
    pub name: String,
    pub value: ChangeValue,
}

/// What changed in a field.
#[derive(Debug, PartialEq, Eq)]
pub enum ChangeValue {
    /// The field got a new value.
    Leaf(FieldValue),
    /// The field holds an object, and this changed in one of its fields.
    Nested(Box<ChangeEvent>),
    /// The field holds a collection, and this changed in it.
    CollectionEdit(Box<CollectionChange>),
}

/// A change to an ordered collection.
#[derive(Debug, PartialEq, Eq)]
pub enum CollectionChange {
    /// An item was added at the end.
    Add,
    /// The item at this index was removed.
    Remove(usize),
    /// This changed in the item at `index`.
    ItemChanged { index: usize, value: ChangeValue },
}

impl ChangeEvent {
    /// The event that `name` got the new value `value`.
    pub fn leaf(name: &str, value: FieldValue) -> (event: ChangeEvent)
        ensures
            event.name@ == name@,
            event.value == ChangeValue::Leaf(value),
    {
        ChangeEvent { name: name.to_owned(), value: ChangeValue::Leaf(value) }
    }

    /// The event that `inner` happened in the object that `name` holds.
    pub fn nested(name: &str, inner: ChangeEvent) -> (event: ChangeEvent)
        ensures
            event.name@ == name@,
            event.value == ChangeValue::Nested(Box::new(inner)),
    {
        ChangeEvent { name: name.to_owned(), value: ChangeValue::Nested(Box::new(inner)) }
    }

    /// The event that `change` happened in the collection that `name` holds.
    pub fn collection(name: &str, change: CollectionChange) -> (event: ChangeEvent)
        ensures
            event.name@ == name@,
            event.value == ChangeValue::CollectionEdit(Box::new(change)),
    {
        ChangeEvent { name: name.to_owned(), value: ChangeValue::CollectionEdit(Box::new(change)) }
    }
}

} // verus!
