use vstd::prelude::*;
use crate::context::{Context, Syntax};
use crate::descriptor::{FieldDescriptorProto, FieldType, is_numeric_type};
use crate::model::{
    AccessorMode, DefaultExpr, DefaultLiteral, FieldNode, FieldRef, PresenceCheck, PresenceExpr,
    Primitive, TypeAnnotation, TypeError,
};

verus! {

/// A code-generation backend. Backends may add decorations of their own to
/// the emitted property; the semantic parts of the property never depend on it.
pub trait Runtime {
}

/// The backend that adds nothing.
pub struct DefaultRuntime;

impl Runtime for DefaultRuntime {
}

/// The keyword type of a scalar wire type.
pub open spec fn keyword_kind(t: FieldType) -> Option<Primitive> {
    if is_numeric_type(t) {
        Some(Primitive::Number)
    } else if t == FieldType::String {
        Some(Primitive::String)
    } else if t == FieldType::Bool {
        Some(Primitive::Boolean)
    } else {
        None
    }
}

impl FieldDescriptorProto {
    pub open spec fn spec_accessor(&self, ctx: &Context) -> AccessorMode {
        if self.spec_is_repeated() && self.spec_is_map(ctx) {
            AccessorMode::FreeStanding
        } else if self.spec_is_repeated() && !self.spec_is_packed(ctx) {
            AccessorMode::FreeStanding
        } else {
            AccessorMode::InstanceBound
        }
    }

    /// The type of one value of the field: its keyword type, else the type it refers to.
    pub open spec fn spec_element_type(&self) -> Option<TypeAnnotation> {
        match keyword_kind(self.field_type) {
            Some(k) => Some(TypeAnnotation::Primitive(k)),
            None => match self.referenced_type {
                Some(n) => Some(TypeAnnotation::NamedRef(n)),
                None => None,
            },
        }
    }

    /// The field's type when it is not a map: an array of its element type if repeated.
    pub open spec fn spec_plain_type(&self) -> Option<TypeAnnotation> {
        match self.spec_element_type() {
            Some(t) => if self.spec_is_repeated() {
                Some(TypeAnnotation::ArrayOf(Box::new(t)))
            } else {
                Some(t)
            },
            None => None,
        }
    }

    /// The field's type, where at most `depth` map types may nest inside one
    /// another. A map type is `Map<K, V>` of the full types of its entry's key
    /// and value fields; an entry met with no depth left is reported as cyclic.
    pub open spec fn spec_type_within(&self, ctx: &Context, depth: nat) -> Result<Option<TypeAnnotation>, TypeError>
        decreases depth,
    {
        if self.spec_is_map(ctx) {
            let entry = ctx.spec_map_type(self.referenced_type.unwrap()@).unwrap();
            if depth == 0 {
                Err(TypeError::CyclicMapEntry(entry.name))
            } else {
                match (
                    entry.key.spec_type_within(ctx, (depth - 1) as nat),
                    entry.value.spec_type_within(ctx, (depth - 1) as nat),
                ) {
                    (Err(e), _) => Err(e),
                    (_, Err(e)) => Err(e),
                    (Ok(Some(k)), Ok(Some(v))) => Ok(
                        Some(TypeAnnotation::MapOf(Box::new(k), Box::new(v))),
                    ),
                    _ => Err(TypeError::UntypedMapEntry(entry.name)),
                }
            }
        } else {
            Ok(self.spec_plain_type())
        }
    }

    /// The field's type. Map types nest at most as deep as there are registered
    /// entry types: any deeper nesting meets some entry type twice, that is, the
    /// entry types refer to one another in a cycle.
    pub open spec fn spec_type_annotation(&self, ctx: &Context) -> Result<Option<TypeAnnotation>, TypeError> {
        self.spec_type_within(ctx, ctx.map_types@.len())
    }

    pub open spec fn spec_default_value(&self, ctx: &Context) -> DefaultExpr {
        if self.spec_is_map(ctx) {
            DefaultExpr::EmptyMap
        } else if self.spec_is_repeated() {
            DefaultExpr::EmptyArray
        } else if self.spec_is_bytes() {
            DefaultExpr::EmptyBytes
        } else {
            DefaultExpr::UndefinedSentinel
        }
    }

    pub open spec fn spec_proto3_default(&self) -> Option<DefaultLiteral> {
        if self.spec_is_repeated() {
            None
        } else if self.spec_is_string() {
            Some(DefaultLiteral::EmptyString)
        } else if self.spec_is_number() {
            Some(DefaultLiteral::Zero)
        } else if self.spec_is_boolean() {
            Some(DefaultLiteral::False)
        } else {
            None
        }
    }

    /// The clauses of the presence test: defined, non-empty for containers,
    /// and, in proto3 only, different from the implicit zero value.
    pub open spec fn spec_presence_checks(&self, ctx: &Context) -> Seq<PresenceCheck> {
        let container = if self.spec_is_map(ctx) {
            seq![PresenceCheck::SizeNotZero]
        } else if self.spec_is_bytes() || self.spec_is_repeated() {
            seq![PresenceCheck::LengthNotZero]
        } else {
            Seq::empty()
        };
        let implicit = match self.spec_proto3_default() {
            Some(l) if ctx.syntax == Syntax::Proto3 => seq![PresenceCheck::NotEqualDefault(l)],
            _ => Seq::empty(),
        };
        seq![PresenceCheck::NotUndefined] + container + implicit
    }

    /// How generated code outside deserialization addresses this field.
    pub fn into_accessor(&self, ctx: &Context) -> (r: AccessorMode)
        ensures
            r == self.spec_accessor(ctx),
    {
        if self.is_repeated() && self.is_map(ctx) {
            AccessorMode::FreeStanding
        } else if self.is_repeated() && !self.is_packed(ctx) {
            AccessorMode::FreeStanding
        } else {
            AccessorMode::InstanceBound
        }
    }

    /// The expression that tests whether the field, addressed through
    /// `accessor`, holds a meaningful value.
    pub fn default_value_bin_expr(&self, ctx: &Context, accessor: AccessorMode) -> (r: PresenceExpr)
        ensures
            r.target.mode == accessor,
            r.target.name == self.name,
            r.checks@ == self.spec_presence_checks(ctx),
    {
        let mut checks: Vec<PresenceCheck> = Vec::new();
        checks.push(PresenceCheck::NotUndefined);
        if self.is_map(ctx) {
            checks.push(PresenceCheck::SizeNotZero);
        } else if self.is_bytes() || self.is_repeated() {
            checks.push(PresenceCheck::LengthNotZero);
        }
        if ctx.syntax == Syntax::Proto3 {
            if let Some(l) = self.proto3_default() {
                checks.push(PresenceCheck::NotEqualDefault(l));
            }
        }
        assert(checks@ == self.spec_presence_checks(ctx));
        PresenceExpr { target: FieldRef { mode: accessor, name: self.name.clone() }, checks }
    }

    /// The implicit zero value of a singular string, numeric or boolean field.
    pub fn proto3_default(&self) -> (r: Option<DefaultLiteral>)
        ensures
            r == self.spec_proto3_default(),
    {
        if self.is_repeated() {
            return None;
        }
        if self.is_string() {
            Some(DefaultLiteral::EmptyString)
        } else if self.is_number() {
            Some(DefaultLiteral::Zero)
        } else if self.is_boolean() {
            Some(DefaultLiteral::False)
        } else {
            None
        }
    }

    /// The storage initializer of the field.
    pub fn default_value_expr(&self, ctx: &Context) -> (r: DefaultExpr)
        ensures
            r == self.spec_default_value(ctx),
    {
        if self.is_map(ctx) {
            DefaultExpr::EmptyMap
        } else if self.is_repeated() {
            DefaultExpr::EmptyArray
        } else if self.is_bytes() {
            DefaultExpr::EmptyBytes
        } else {
            DefaultExpr::UndefinedSentinel
        }
    }

    fn element_type(&self) -> (r: Option<TypeAnnotation>)
        ensures
            r == self.spec_element_type(),
    {
        if self.is_number() {
            Some(TypeAnnotation::Primitive(Primitive::Number))
        } else if self.is_string() {
            Some(TypeAnnotation::Primitive(Primitive::String))
        } else if self.is_boolean() {
            Some(TypeAnnotation::Primitive(Primitive::Boolean))
        } else {
            match &self.referenced_type {
                Some(n) => Some(TypeAnnotation::NamedRef(n.clone())),
                None => None,
            }
        }
    }

    fn plain_type(&self) -> (r: Option<TypeAnnotation>)
        ensures
            r == self.spec_plain_type(),
    {
        match self.element_type() {
            Some(t) => if self.is_repeated() {
                Some(TypeAnnotation::ArrayOf(Box::new(t)))
            } else {
                Some(t)
            },
            None => None,
        }
    }

    fn type_within(&self, ctx: &Context, depth: usize) -> (r: Result<Option<TypeAnnotation>, TypeError>)
        ensures
            r == self.spec_type_within(ctx, depth as nat),
        decreases depth,
    {
        if self.is_map(ctx) {
            let n = self.referenced_type.as_ref().unwrap();
            let i = ctx.map_type_index(n).unwrap();
            proof {
                crate::context::lemma_entry_index_bounds(ctx.map_types@, n@);
            }
            let entry = &ctx.map_types[i];
            if depth == 0 {
                return Err(TypeError::CyclicMapEntry(entry.name.clone()));
            }
            let k = match entry.key.type_within(ctx, depth - 1) {
                Err(e) => return Err(e),
                Ok(k) => k,
            };
            let v = match entry.value.type_within(ctx, depth - 1) {
                Err(e) => return Err(e),
                Ok(v) => v,
            };
            match (k, v) {
                (Some(k), Some(v)) => Ok(Some(TypeAnnotation::MapOf(Box::new(k), Box::new(v)))),
                _ => Err(TypeError::UntypedMapEntry(entry.name.clone())),
            }
        } else {
            Ok(self.plain_type())
        }
    }

    /// The static type of the field; `Ok(None)` leaves the type to inference.
    /// Fails on a map field whose entry types have an untyped key or value, or
    /// refer to one another in a cycle.
    pub fn type_annotation(&self, ctx: &Context) -> (r: Result<Option<TypeAnnotation>, TypeError>)
        ensures
            r == self.spec_type_annotation(ctx),
    {
        self.type_within(ctx, ctx.map_types.len())
    }

    /// The declared property for this field.
    pub fn print_prop<T: Runtime>(&self, ctx: &Context, _runtime: &T) -> (r: Result<FieldNode, TypeError>)
        ensures
            match (r, self.spec_type_annotation(ctx)) {
                (Ok(node), Ok(t)) => node.name == self.name && node.optional
                    == self.spec_is_optional() && node.type_ann == t && node.value
                    == self.spec_default_value(ctx),
                (Err(e), Err(e2)) => e == e2,
                _ => false,
            },
    {
        let type_ann = match self.type_annotation(ctx) {
            Ok(t) => t,
            Err(e) => return Err(e),
        };
        Ok(FieldNode {
            name: self.name.clone(),
            optional: self.is_optional(),
            type_ann,
            value: self.default_value_expr(ctx),
        })
    }
}

} // verus!
