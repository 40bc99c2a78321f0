//! A description of types as plain data: what a type registry knows of the
//! shape of a type, in a form that can be written out.

use vstd::prelude::*;

verus! {

/// The shape of a type.
#[derive(Debug, Clone)]
pub enum SerdeTypeInfo {
    Struct(SerdeStructInfo),
    TupleStruct(SerdeTupleStructInfo),
    Tuple(SerdeTupleInfo),
    List(SerdeListInfo),
    Array(SerdeArrayInfo),
    MapType(SerdeMapInfo),
    SetType(SerdeSetInfo),
    Enum(SerdeEnumInfo),
    Opaque(SerdeOpaqueInfo),
}

/// A field with a name.
#[derive(Debug, Clone)]
pub struct SerdeNamedField {
    pub name: String,
    pub type_path: String,
    pub docs: Option<String>,
}

/// A field with a place.
#[derive(Debug, Clone)]
pub struct SerdeUnnamedField {
    pub index: usize,
    pub type_path: String,
    pub docs: Option<String>,
}

/// A struct with named fields.
#[derive(Debug, Clone)]
pub struct SerdeStructInfo {
    pub fields: Vec<SerdeNamedField>,
}

/// A struct with unnamed fields.
#[derive(Debug, Clone)]
pub struct SerdeTupleStructInfo {
    pub fields: Vec<SerdeUnnamedField>,
}

/// A tuple.
#[derive(Debug, Clone)]
pub struct SerdeTupleInfo {
    pub fields: Vec<SerdeUnnamedField>,
}

/// A list of items of one type.
#[derive(Debug, Clone)]
pub struct SerdeListInfo {
    pub item_type_path: String,
}

/// An array of `capacity` items of one type.
#[derive(Debug, Clone)]
pub struct SerdeArrayInfo {
    pub item_type_path: String,
    pub capacity: usize,
}

/// A set of values of one type.
#[derive(Debug, Clone)]
pub struct SerdeSetInfo {
    pub value_type_path: String,
}

/// A map from keys of one type to values of one type.
#[derive(Debug, Clone)]
pub struct SerdeMapInfo {
    pub key_type_path: String,
    pub value_type_path: String,
}

/// A type whose inside is not described.
#[derive(Debug, Clone)]
pub struct SerdeOpaqueInfo {
    pub item_type_path: String,
}

/// An enum.
#[derive(Debug, Clone)]
pub struct SerdeEnumInfo {
    pub variants: Vec<SerdeVariantInfo>,
}

/// A variant of an enum.
#[derive(Debug, Clone)]
pub enum SerdeVariantInfo {
    Struct(SerdeStructVariantInfo),
    Tuple(SerdeTupleVariantInfo),
    Unit(SerdeUnitVariantInfo),
}

/// A variant with named fields.
#[derive(Debug, Clone)]
pub struct SerdeStructVariantInfo {
    pub name: String,
    pub fields: Vec<SerdeNamedField>,
    pub docs: Option<String>,
}

/// A variant with unnamed fields.
#[derive(Debug, Clone)]
pub struct SerdeTupleVariantInfo {
    pub name: String,
    pub fields: Vec<SerdeUnnamedField>,
    pub docs: Option<String>,
}

/// A variant without fields.
#[derive(Debug, Clone)]
pub struct SerdeUnitVariantInfo {
    pub name: String,
    pub docs: Option<String>,
}

impl SerdeTypeInfo {
    /// The tag under which this shape is written out.
    pub open spec fn kind_text(self) -> Seq<char> {
        match self {
            SerdeTypeInfo::Struct(_) => "struct"@,
            SerdeTypeInfo::TupleStruct(_) => "tupleStruct"@,
            SerdeTypeInfo::Tuple(_) => "tuple"@,
            SerdeTypeInfo::List(_) => "list"@,
            SerdeTypeInfo::Array(_) => "array"@,
            SerdeTypeInfo::MapType(_) => "map"@,
            SerdeTypeInfo::SetType(_) => "set"@,
            SerdeTypeInfo::Enum(_) => "enum"@,
            SerdeTypeInfo::Opaque(_) => "opaque"@,
        }
    }

    /// The tag under which this shape is written out.
    pub fn kind(&self) -> (kind: &'static str)
        ensures
            kind@ == self.kind_text(),
    {
        match self {
            SerdeTypeInfo::Struct(_) => "struct",
            SerdeTypeInfo::TupleStruct(_) => "tupleStruct",
            SerdeTypeInfo::Tuple(_) => "tuple",
            SerdeTypeInfo::List(_) => "list",
            SerdeTypeInfo::Array(_) => "array",
            SerdeTypeInfo::MapType(_) => "map",
            SerdeTypeInfo::SetType(_) => "set",
            SerdeTypeInfo::Enum(_) => "enum",
            SerdeTypeInfo::Opaque(_) => "opaque",
        }
    }
}

impl SerdeVariantInfo {
    /// The tag under which this variant is written out.
    pub open spec fn kind_text(self) -> Seq<char> {
        match self {
            SerdeVariantInfo::Struct(_) => "struct"@,
            SerdeVariantInfo::Tuple(_) => "tuple"@,
            SerdeVariantInfo::Unit(_) => "unit"@,
        }
    }

    /// The tag under which this variant is written out.
    pub fn kind(&self) -> (kind: &'static str)
        ensures
            kind@ == self.kind_text(),
    {
        match self {
            SerdeVariantInfo::Struct(_) => "struct",
            SerdeVariantInfo::Tuple(_) => "tuple",
            SerdeVariantInfo::Unit(_) => "unit",
        }
    }
}

} // verus!
