//! Custom fields of level entities.
//!
//! A level file gives every entity a list of named fields. The rules look a
//! field up by name and fall back to a default where it is missing or holds
//! the wrong kind of value. Numbers with a fraction are held in thousandths.

use vstd::prelude::*;
use crate::gate::Gate;

verus! {

/// The value of one field.
#[derive(Debug)]
pub enum FieldValue {
    Int(Option<i32>),
    /// In thousandths.
    Float(Option<i32>),
    Bool(bool),
    String(Option<String>),
    Enum(Option<String>),
    /// A kind of value that no rule reads.
    Other,
}

/// One named field.
#[derive(Debug)]
pub struct FieldInstance {
    pub identifier: String,
    pub value: FieldValue,
}

/// A level entity: its name and its fields, in the order of the level file.
#[derive(Debug)]
pub struct EntityInstance {
    pub identifier: String,
    pub field_instances: Vec<FieldInstance>,
}

impl Clone for FieldValue {
    fn clone(&self) -> (copy: Self)
        ensures
            copy == *self,
    {
        match self {
            FieldValue::Int(value) => FieldValue::Int(*value),
            FieldValue::Float(value) => FieldValue::Float(*value),
            FieldValue::Bool(value) => FieldValue::Bool(*value),
            FieldValue::String(value) => FieldValue::String(clone_text(value)),
            FieldValue::Enum(value) => FieldValue::Enum(clone_text(value)),
            FieldValue::Other => FieldValue::Other,
        }
    }
}

/// A copy of an optional text.
fn clone_text(text: &Option<String>) -> (copy: Option<String>)
    ensures
        copy == *text,
{
    match text {
        Some(text) => Some(text.clone()),
        None => None,
    }
}

/// Index of the first field at or after `start` that is called `name`.
pub open spec fn field_from(fields: Seq<FieldInstance>, name: Seq<char>, start: int) -> Option<int>
    decreases fields.len() - start,
{
    if start < 0 || start >= fields.len() {
        None
    } else if fields[start].identifier@ == name {
        Some(start)
    } else {
        field_from(fields, name, start + 1)
    }
}

/// What `field_from` finds is the least index at or after `start` of a field
/// called `name`, and it finds nothing only where no field is called so.
pub proof fn lemma_field_from(fields: Seq<FieldInstance>, name: Seq<char>, start: int)
    requires
        0 <= start,
    ensures
        match field_from(fields, name, start) {
            Some(index) => {
                &&& start <= index < fields.len()
                &&& fields[index].identifier@ == name
                &&& forall|j: int| start <= j < index ==> fields[j].identifier@ != name
            },
            None => forall|j: int| start <= j < fields.len() ==> fields[j].identifier@ != name,
        },
    decreases fields.len() - start,
{
    if start < fields.len() && fields[start].identifier@ != name {
        lemma_field_from(fields, name, start + 1);
    }
}

/// The text that a value holds: that of a string or of an enum, if any.
pub open spec fn text_of(value: FieldValue) -> Option<String> {
    match value {
        FieldValue::String(text) => text,
        FieldValue::Enum(text) => text,
        _ => None,
    }
}

/// Lookup of an entity's fields by name.
pub trait FieldReturn {
    /// The value of the first field called `name`.
    spec fn field(&self, name: Seq<char>) -> Option<FieldValue>;

    /// The text of the first field called `name`, where that field is a
    /// string or an enum and is set.
    spec fn text(&self, name: Seq<char>) -> Option<String>;

    /// The value of the first field called `field_name`, or nothing where no
    /// field is called so.
    fn get_field_value(&self, field_name: &str) -> (value: Option<FieldValue>)
        ensures
            value == self.field(field_name@),
    ;

    /// The text of the first field called `field_name`, or nothing where no
    /// field is called so, or it is neither a string nor an enum, or it is
    /// not set.
    fn get_string_value(&self, field_name: &str) -> (value: Option<String>)
        ensures
            value == self.text(field_name@),
    ;
}

impl EntityInstance {
    /// Finds the first field called `name`.
    fn find_field(&self, name: &str) -> (found: Option<usize>)
        ensures
            match found {
                Some(index) => field_from(self.field_instances@, name@, 0) == Some(index as int)
                    && index < self.field_instances@.len(),
                None => field_from(self.field_instances@, name@, 0) is None,
            },
    {
        let wanted = name.to_owned();
        let mut i: usize = 0;
        while i < self.field_instances.len()
            invariant
                i <= self.field_instances@.len(),
                wanted@ == name@,
                field_from(self.field_instances@, name@, 0) == field_from(
                    self.field_instances@,
                    name@,
                    i as int,
                ),
            decreases self.field_instances@.len() - i,
        {
            if self.field_instances[i].identifier == wanted {
                return Some(i);
            }
            i += 1;
        }
        None
    }
}

impl FieldReturn for EntityInstance {
    open spec fn field(&self, name: Seq<char>) -> Option<FieldValue> {
        match field_from(self.field_instances@, name, 0) {
            Some(index) => Some(self.field_instances@[index].value),
            None => None,
        }
    }

    open spec fn text(&self, name: Seq<char>) -> Option<String> {
        match self.field(name) {
            Some(value) => text_of(value),
            None => None,
        }
    }

    fn get_field_value(&self, field_name: &str) -> (value: Option<FieldValue>) {
        match self.find_field(field_name) {
            Some(index) => Some(self.field_instances[index].value.clone()),
            None => None,
        }
    }

    fn get_string_value(&self, field_name: &str) -> (value: Option<String>) {
        match self.find_field(field_name) {
            Some(index) => match &self.field_instances[index].value {
                FieldValue::String(text) => clone_text(text),
                FieldValue::Enum(text) => clone_text(text),
                _ => None,
            },
            None => None,
        }
    }
}

} // verus!
