use vstd::prelude::*;
use crate::context::{Context, Syntax};

verus! {

/// Cardinality of a field.
#[derive(Clone, Copy, Debug, PartialEq, Eq, Structural)]
pub enum Label {
    Optional,
    Required,
    Repeated,
}

/// Declared wire type of a field.
#[derive(Clone, Copy, Debug, PartialEq, Eq, Structural)]
pub enum FieldType {
    Double,
    Float,
    Int64,
    Uint64,
    Int32,
    Fixed64,
    Fixed32,
    Bool,
    String,
    Group,
    Message,
    Bytes,
    Uint32,
    Enum,
    Sfixed32,
    Sfixed64,
    Sint32,
    Sint64,
}

/// One field of a message, as the schema compiler describes it.
#[derive(Clone, Debug, PartialEq, Eq)]
pub struct FieldDescriptorProto {
    pub name: String,
    pub number: i32,
    pub label: Label,
    pub field_type: FieldType,
    /// Fully-qualified name of the referenced message or enum type.
    pub referenced_type: Option<String>,
    /// The `packed` option, where the schema sets it.
    pub packed: Option<bool>,
}

pub open spec fn is_numeric_type(t: FieldType) -> bool {
    match t {
        FieldType::Double | FieldType::Float | FieldType::Int64 | FieldType::Uint64
        | FieldType::Int32 | FieldType::Fixed64 | FieldType::Fixed32 | FieldType::Uint32
        | FieldType::Sfixed32 | FieldType::Sfixed64 | FieldType::Sint32
        | FieldType::Sint64 => true,
        _ => false,
    }
}

/// Types whose repeated values may use the packed encoding.
pub open spec fn is_packable_type(t: FieldType) -> bool {
    is_numeric_type(t) || t == FieldType::Bool || t == FieldType::Enum
}

impl FieldDescriptorProto {
    pub open spec fn spec_is_repeated(&self) -> bool {
        self.label == Label::Repeated
    }

    pub open spec fn spec_is_optional(&self) -> bool {
        self.label == Label::Optional
    }

    pub open spec fn spec_is_bytes(&self) -> bool {
        self.field_type == FieldType::Bytes
    }

    pub open spec fn spec_is_string(&self) -> bool {
        self.field_type == FieldType::String
    }

    pub open spec fn spec_is_number(&self) -> bool {
        is_numeric_type(self.field_type)
    }

    pub open spec fn spec_is_boolean(&self) -> bool {
        self.field_type == FieldType::Bool
    }

    /// A repeated message field whose type is a registered map-entry type.
    pub open spec fn spec_is_map(&self, ctx: &Context) -> bool {
        &&& self.spec_is_repeated()
        &&& self.field_type == FieldType::Message
        &&& self.referenced_type matches Some(n) && ctx.spec_map_type(n@) is Some
    }

    /// A repeated packable field that is packed explicitly, or by default in proto3.
    pub open spec fn spec_is_packed(&self, ctx: &Context) -> bool {
        &&& self.spec_is_repeated()
        &&& is_packable_type(self.field_type)
        &&& match self.packed {
            Some(p) => p,
            None => ctx.syntax == Syntax::Proto3,
        }
    }

    pub fn is_repeated(&self) -> (r: bool)
        ensures
            r == self.spec_is_repeated(),
    {
        self.label == Label::Repeated
    }

    pub fn is_optional(&self) -> (r: bool)
        ensures
            r == self.spec_is_optional(),
    {
        self.label == Label::Optional
    }

    pub fn is_bytes(&self) -> (r: bool)
        ensures
            r == self.spec_is_bytes(),
    {
        self.field_type == FieldType::Bytes
    }

    pub fn is_string(&self) -> (r: bool)
        ensures
            r == self.spec_is_string(),
    {
        self.field_type == FieldType::String
    }

    pub fn is_number(&self) -> (r: bool)
        ensures
            r == self.spec_is_number(),
    {
        match self.field_type {
            FieldType::Double | FieldType::Float | FieldType::Int64 | FieldType::Uint64
            | FieldType::Int32 | FieldType::Fixed64 | FieldType::Fixed32 | FieldType::Uint32
            | FieldType::Sfixed32 | FieldType::Sfixed64 | FieldType::Sint32
            | FieldType::Sint64 => true,
            _ => false,
        }
    }

    pub fn is_boolean(&self) -> (r: bool)
        ensures
            r == self.spec_is_boolean(),
    {
        self.field_type == FieldType::Bool
    }

    pub fn is_map(&self, ctx: &Context) -> (r: bool)
        ensures
            r == self.spec_is_map(ctx),
    {
        if self.label != Label::Repeated || self.field_type != FieldType::Message {
            return false;
        }
        match &self.referenced_type {
            Some(n) => ctx.map_type_index(n).is_some(),
            None => false,
        }
    }

    pub fn is_packed(&self, ctx: &Context) -> (r: bool)
        ensures
            r == self.spec_is_packed(ctx),
    {
        if self.label != Label::Repeated {
            return false;
        }
        let packable = self.is_number() || self.field_type == FieldType::Bool
            || self.field_type == FieldType::Enum;
        if !packable {
            return false;
        }
        match self.packed {
            Some(p) => p,
            None => ctx.syntax == Syntax::Proto3,
        }
    }
}

} // verus!
