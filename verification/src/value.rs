//! The values that the fields of a light hold.

use vstd::prelude::*;

verus! {

/// A single-precision number, held as its IEEE 754 bit pattern.
#[derive(Clone, Copy, Debug, PartialEq, Eq, Structural)]
pub struct Real {
    pub bits: u32,
}

/// A colour with eight bits per channel.
#[derive(Clone, Copy, Debug, PartialEq, Eq, Structural)]
pub struct Color {
    pub r: u8,
    pub g: u8,
    pub b: u8,
    pub a: u8,
}

/// Three numbers, one per axis or colour channel.
#[derive(Clone, Copy, Debug, PartialEq, Eq, Structural)]
pub struct Vector3 {
    pub x: Real,
    pub y: Real,
    pub z: Real,
}

/// The identity of a texture shared through the resource manager.
#[derive(Clone, Copy, Debug, PartialEq, Eq, Structural)]
pub struct TextureId {
    pub id: u64,
}

/// The type that a field is declared with.
#[derive(Clone, Copy, Debug, PartialEq, Eq, Structural)]
pub enum ValueType {
    Bool,
    Number,
    Color,
    Vector3,
    Texture,
    /// Any type that no field of a light is declared with.
    Foreign,
}

/// A new value for a field, as an inspector reports it.
#[derive(Clone, Copy, Debug, PartialEq, Eq)]
pub enum FieldValue {
    Bool(bool),
    Number(Real),
    Color(Color),
    Vector3(Vector3),
    /// A texture, or none.
    Texture(Option<TextureId>),
    /// A value of a type that no field of a light holds.
    Foreign,
}

impl FieldValue {
    /// The type of this value.
    pub open spec fn type_of(self) -> ValueType {
        match self {
            FieldValue::Bool(_) => ValueType::Bool,
            FieldValue::Number(_) => ValueType::Number,
            FieldValue::Color(_) => ValueType::Color,
            FieldValue::Vector3(_) => ValueType::Vector3,
            FieldValue::Texture(_) => ValueType::Texture,
            FieldValue::Foreign => ValueType::Foreign,
        }
    }

    /// The type of this value.
    pub fn value_type(&self) -> (ty: ValueType)
        ensures
            ty == self.type_of(),
    {
        match self {
            FieldValue::Bool(_) => ValueType::Bool,
            FieldValue::Number(_) => ValueType::Number,
            FieldValue::Color(_) => ValueType::Color,
            FieldValue::Vector3(_) => ValueType::Vector3,
            FieldValue::Texture(_) => ValueType::Texture,
            FieldValue::Foreign => ValueType::Foreign,
        }
    }
}

} // verus!
