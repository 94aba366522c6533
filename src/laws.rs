//! Properties that hold of every field the compiler is given.

use vstd::prelude::*;
use crate::context::{Context, Syntax, lemma_entry_index_bounds};
use crate::descriptor::{FieldDescriptorProto, FieldType};
use crate::model::{
    AccessorMode, DefaultExpr, DefaultLiteral, PresenceCheck, Primitive, TypeAnnotation,
    TypeError,
};

verus! {

/// In proto2, a singular field that is neither a map nor bytes is present
/// exactly when it is defined: no container or default-value clause.
pub proof fn lemma_proto2_scalar_presence(f: FieldDescriptorProto, ctx: Context)
    requires
        ctx.syntax == Syntax::Proto2,
        !f.spec_is_repeated(),
        !f.spec_is_map(&ctx),
        !f.spec_is_bytes(),
    ensures
        f.spec_presence_checks(&ctx) == seq![PresenceCheck::NotUndefined],
{
    assert(f.spec_presence_checks(&ctx) =~= seq![PresenceCheck::NotUndefined]);
}

/// In proto3, a singular string, numeric or boolean field is present when it
/// is defined and differs from `""`, `0` or `false` respectively.
pub proof fn lemma_proto3_scalar_presence(f: FieldDescriptorProto, ctx: Context)
    requires
        ctx.syntax == Syntax::Proto3,
        !f.spec_is_repeated(),
        f.spec_is_string() || f.spec_is_number() || f.spec_is_boolean(),
    ensures
        f.spec_is_string() ==> f.spec_presence_checks(&ctx) == seq![
            PresenceCheck::NotUndefined,
            PresenceCheck::NotEqualDefault(DefaultLiteral::EmptyString),
        ],
        f.spec_is_number() ==> f.spec_presence_checks(&ctx) == seq![
            PresenceCheck::NotUndefined,
            PresenceCheck::NotEqualDefault(DefaultLiteral::Zero),
        ],
        f.spec_is_boolean() ==> f.spec_presence_checks(&ctx) == seq![
            PresenceCheck::NotUndefined,
            PresenceCheck::NotEqualDefault(DefaultLiteral::False),
        ],
{
    assert(!f.spec_is_map(&ctx));
    let l = f.spec_proto3_default().unwrap();
    assert(f.spec_presence_checks(&ctx) =~= seq![
        PresenceCheck::NotUndefined,
        PresenceCheck::NotEqualDefault(l),
    ]);
}

/// In either syntax, a map field is present when it is defined and non-empty,
/// starts out as an empty map, and is addressed as a free-standing local.
pub proof fn lemma_map_field(f: FieldDescriptorProto, ctx: Context)
    requires
        f.spec_is_map(&ctx),
    ensures
        f.spec_presence_checks(&ctx) == seq![
            PresenceCheck::NotUndefined,
            PresenceCheck::SizeNotZero,
        ],
        f.spec_default_value(&ctx) == DefaultExpr::EmptyMap,
        f.spec_accessor(&ctx) == AccessorMode::FreeStanding,
{
    assert(f.spec_presence_checks(&ctx) =~= seq![
        PresenceCheck::NotUndefined,
        PresenceCheck::SizeNotZero,
    ]);
}

/// A repeated field that is not a map is addressed as a free-standing local
/// unless it is packed, and as an instance property when it is.
pub proof fn lemma_repeated_accessor(f: FieldDescriptorProto, ctx: Context)
    requires
        f.spec_is_repeated(),
        !f.spec_is_map(&ctx),
    ensures
        !f.spec_is_packed(&ctx) ==> f.spec_accessor(&ctx) == AccessorMode::FreeStanding,
        f.spec_is_packed(&ctx) ==> f.spec_accessor(&ctx) == AccessorMode::InstanceBound,
{
}

/// A map field whose entry has a singular `int32` key and a singular `string`
/// value is typed `Map<number, string>`, never as an array.
pub proof fn lemma_int32_string_map_type(f: FieldDescriptorProto, ctx: Context)
    requires
        f.spec_is_map(&ctx),
        ({
            let entry = ctx.spec_map_type(f.referenced_type.unwrap()@).unwrap();
            &&& entry.key.field_type == FieldType::Int32
            &&& !entry.key.spec_is_repeated()
            &&& entry.value.field_type == FieldType::String
            &&& !entry.value.spec_is_repeated()
        }),
    ensures
        f.spec_type_annotation(&ctx) == Ok::<Option<TypeAnnotation>, TypeError>(
            Some(
                TypeAnnotation::MapOf(
                    Box::new(TypeAnnotation::Primitive(Primitive::Number)),
                    Box::new(TypeAnnotation::Primitive(Primitive::String)),
                ),
            ),
        ),
        !(f.spec_type_annotation(&ctx) matches Ok(Some(TypeAnnotation::ArrayOf(_)))),
{
    lemma_entry_index_bounds(ctx.map_types@, f.referenced_type.unwrap()@);
    let entry = ctx.spec_map_type(f.referenced_type.unwrap()@).unwrap();
    let d = (ctx.map_types@.len() - 1) as nat;
    assert(entry.key.spec_type_within(&ctx, d) == Ok::<Option<TypeAnnotation>, TypeError>(
        Some(TypeAnnotation::Primitive(Primitive::Number)),
    ));
    assert(entry.value.spec_type_within(&ctx, d) == Ok::<Option<TypeAnnotation>, TypeError>(
        Some(TypeAnnotation::Primitive(Primitive::String)),
    ));
}

/// A singular message field carries no default-value clause in either syntax:
/// it is present exactly when it is defined.
pub proof fn lemma_message_presence(f: FieldDescriptorProto, ctx: Context)
    requires
        !f.spec_is_repeated(),
        f.field_type == FieldType::Message,
    ensures
        f.spec_presence_checks(&ctx) == seq![PresenceCheck::NotUndefined],
{
    assert(f.spec_presence_checks(&ctx) =~= seq![PresenceCheck::NotUndefined]);
}

/// At the top level a field's type is never both a map and an array: a
/// field's type is a map exactly when the field is a map field.
pub proof fn lemma_map_type_only_for_maps(f: FieldDescriptorProto, ctx: Context)
    ensures
        f.spec_type_annotation(&ctx) matches Ok(Some(TypeAnnotation::MapOf(_, _)))
            <==> (f.spec_is_map(&ctx) && f.spec_type_annotation(&ctx) is Ok),
{
}

/// Allowing deeper nesting never changes a type that was already found.
pub proof fn lemma_type_depth_stable(f: FieldDescriptorProto, ctx: Context, n: nat, m: nat)
    requires
        n <= m,
        f.spec_type_within(&ctx, n) is Ok,
    ensures
        f.spec_type_within(&ctx, m) == f.spec_type_within(&ctx, n),
    decreases n,
{
    if f.spec_is_map(&ctx) {
        let entry = ctx.spec_map_type(f.referenced_type.unwrap()@).unwrap();
        lemma_type_depth_stable(entry.key, ctx, (n - 1) as nat, (m - 1) as nat);
        lemma_type_depth_stable(entry.value, ctx, (n - 1) as nat, (m - 1) as nat);
    }
}

/// A map field is typed `Map<K, V>`, where `K` and `V` are the full types of
/// its entry's key and value fields, whenever those are found with one level
/// of nesting fewer than the registry allows.
pub proof fn lemma_map_of_entry_types(
    f: FieldDescriptorProto,
    ctx: Context,
    n: nat,
    k: TypeAnnotation,
    v: TypeAnnotation,
)
    requires
        f.spec_is_map(&ctx),
        n < ctx.map_types@.len(),
        ({
            let entry = ctx.spec_map_type(f.referenced_type.unwrap()@).unwrap();
            &&& entry.key.spec_type_within(&ctx, n) == Ok::<Option<TypeAnnotation>, TypeError>(Some(k))
            &&& entry.value.spec_type_within(&ctx, n) == Ok::<Option<TypeAnnotation>, TypeError>(Some(v))
        }),
    ensures
        f.spec_type_annotation(&ctx) == Ok::<Option<TypeAnnotation>, TypeError>(
            Some(TypeAnnotation::MapOf(Box::new(k), Box::new(v))),
        ),
{
    let entry = ctx.spec_map_type(f.referenced_type.unwrap()@).unwrap();
    let d = (ctx.map_types@.len() - 1) as nat;
    lemma_type_depth_stable(entry.key, ctx, n, d);
    lemma_type_depth_stable(entry.value, ctx, n, d);
}

} // verus!
