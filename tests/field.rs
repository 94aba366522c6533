use protoc_gen_ts::context::{Context, MapEntryType, Syntax};
use protoc_gen_ts::descriptor::{FieldDescriptorProto, FieldType, Label};
use protoc_gen_ts::field::DefaultRuntime;
use protoc_gen_ts::model::{
    AccessorMode, DefaultExpr, DefaultLiteral, PresenceCheck, Primitive, TypeAnnotation,
    TypeError,
};

fn field(name: &str, label: Label, field_type: FieldType) -> FieldDescriptorProto {
    FieldDescriptorProto {
        name: name.to_string(),
        number: 1,
        label,
        field_type,
        referenced_type: None,
        packed: None,
    }
}

fn message_field(name: &str, label: Label, type_ref: &str) -> FieldDescriptorProto {
    let mut f = field(name, label, FieldType::Message);
    f.referenced_type = Some(type_ref.to_string());
    f
}

fn entry(name: &str, key: FieldType, value: FieldType) -> MapEntryType {
    MapEntryType {
        name: name.to_string(),
        key: field("key", Label::Optional, key),
        value: field("value", Label::Optional, value),
    }
}

fn context_with_labels(syntax: Syntax) -> Context {
    let mut ctx = Context::new(syntax);
    ctx.add_map_type(entry(".pkg.Msg.LabelsEntry", FieldType::String, FieldType::String));
    ctx
}

fn presence_source(f: &FieldDescriptorProto, ctx: &Context) -> String {
    f.default_value_bin_expr(ctx, f.into_accessor(ctx)).to_source()
}

#[test]
fn proto3_int32_count_scenario() {
    let ctx = Context::new(Syntax::Proto3);
    let f = field("count", Label::Optional, FieldType::Int32);
    assert_eq!(f.default_value_expr(&ctx), DefaultExpr::UndefinedSentinel);
    assert_eq!(f.into_accessor(&ctx), AccessorMode::InstanceBound);
    assert_eq!(presence_source(&f, &ctx), "this.count !== undefined && this.count !== 0");
}

#[test]
fn proto2_repeated_tags_scenario() {
    let ctx = Context::new(Syntax::Proto2);
    let f = field("tags", Label::Repeated, FieldType::String);
    assert_eq!(f.into_accessor(&ctx), AccessorMode::FreeStanding);
    assert_eq!(presence_source(&f, &ctx), "tags !== undefined && tags.length !== 0");
    assert_eq!(f.default_value_expr(&ctx), DefaultExpr::EmptyArray);
    assert_eq!(f.type_annotation(&ctx).unwrap().unwrap().to_source(), "string[]");
}

#[test]
fn string_map_labels_scenario() {
    let ctx = context_with_labels(Syntax::Proto3);
    let f = message_field("labels", Label::Repeated, ".pkg.Msg.LabelsEntry");
    assert!(f.is_map(&ctx));
    assert_eq!(f.default_value_expr(&ctx), DefaultExpr::EmptyMap);
    assert_eq!(f.default_value_expr(&ctx).to_source(), "new Map()");
    let t = f.type_annotation(&ctx).unwrap().unwrap();
    assert_eq!(t.to_source(), "Map<string, string>");
}

#[test]
fn untyped_map_entry_is_an_error_naming_the_entry() {
    let mut ctx = Context::new(Syntax::Proto3);
    ctx.add_map_type(entry(".pkg.Msg.BrokenEntry", FieldType::String, FieldType::Message));
    let f = message_field("broken", Label::Repeated, ".pkg.Msg.BrokenEntry");
    let err = f.type_annotation(&ctx).unwrap_err();
    assert_eq!(err, TypeError::UntypedMapEntry(".pkg.Msg.BrokenEntry".to_string()));
    assert!(err.message().contains(".pkg.Msg.BrokenEntry"));
    assert!(f.print_prop(&ctx, &DefaultRuntime).is_err());
}

#[test]
fn proto2_singular_presence_is_a_single_check() {
    let ctx = Context::new(Syntax::Proto2);
    for t in [FieldType::Int32, FieldType::String, FieldType::Bool, FieldType::Double] {
        let f = field("x", Label::Optional, t);
        let p = f.default_value_bin_expr(&ctx, AccessorMode::InstanceBound);
        assert_eq!(p.checks, vec![PresenceCheck::NotUndefined]);
    }
    let m = message_field("m", Label::Optional, ".pkg.Other");
    let p = m.default_value_bin_expr(&ctx, AccessorMode::InstanceBound);
    assert_eq!(p.checks, vec![PresenceCheck::NotUndefined]);
    assert_eq!(p.to_source(), "this.m !== undefined");
}

#[test]
fn proto3_scalar_presence_compares_with_zero_value() {
    let ctx = Context::new(Syntax::Proto3);
    let s = field("s", Label::Optional, FieldType::String);
    let n = field("n", Label::Optional, FieldType::Uint64);
    let b = field("b", Label::Optional, FieldType::Bool);
    assert_eq!(
        s.default_value_bin_expr(&ctx, AccessorMode::InstanceBound).checks,
        vec![PresenceCheck::NotUndefined, PresenceCheck::NotEqualDefault(DefaultLiteral::EmptyString)]
    );
    assert_eq!(presence_source(&s, &ctx), "this.s !== undefined && this.s !== \"\"");
    assert_eq!(presence_source(&n, &ctx), "this.n !== undefined && this.n !== 0");
    assert_eq!(presence_source(&b, &ctx), "this.b !== undefined && this.b !== false");
    assert_eq!(s.proto3_default(), Some(DefaultLiteral::EmptyString));
    assert_eq!(n.proto3_default(), Some(DefaultLiteral::Zero));
    assert_eq!(b.proto3_default(), Some(DefaultLiteral::False));
}

#[test]
fn proto3_message_field_has_no_default_clause() {
    let ctx = Context::new(Syntax::Proto3);
    let m = message_field("inner", Label::Optional, ".pkg.Inner");
    assert_eq!(m.proto3_default(), None);
    assert_eq!(presence_source(&m, &ctx), "this.inner !== undefined");
    assert_eq!(
        m.type_annotation(&ctx).unwrap(),
        Some(TypeAnnotation::NamedRef(".pkg.Inner".to_string()))
    );
}

#[test]
fn map_fields_in_both_syntaxes() {
    for syntax in [Syntax::Proto2, Syntax::Proto3] {
        let ctx = context_with_labels(syntax);
        let f = message_field("labels", Label::Repeated, ".pkg.Msg.LabelsEntry");
        assert_eq!(
            f.default_value_bin_expr(&ctx, AccessorMode::FreeStanding).checks,
            vec![PresenceCheck::NotUndefined, PresenceCheck::SizeNotZero]
        );
        assert_eq!(presence_source(&f, &ctx), "labels !== undefined && labels.size !== 0");
        assert_eq!(f.default_value_expr(&ctx), DefaultExpr::EmptyMap);
        assert_eq!(f.into_accessor(&ctx), AccessorMode::FreeStanding);
    }
}

#[test]
fn repeated_accessor_follows_packing() {
    let proto2 = Context::new(Syntax::Proto2);
    let proto3 = Context::new(Syntax::Proto3);
    let mut f = field("v", Label::Repeated, FieldType::Int32);
    assert_eq!(f.into_accessor(&proto2), AccessorMode::FreeStanding);
    assert_eq!(f.into_accessor(&proto3), AccessorMode::InstanceBound);
    f.packed = Some(true);
    assert_eq!(f.into_accessor(&proto2), AccessorMode::InstanceBound);
    f.packed = Some(false);
    assert_eq!(f.into_accessor(&proto3), AccessorMode::FreeStanding);
    let s = field("s", Label::Repeated, FieldType::String);
    assert_eq!(s.into_accessor(&proto3), AccessorMode::FreeStanding);
    let single = field("one", Label::Optional, FieldType::Int32);
    assert_eq!(single.into_accessor(&proto2), AccessorMode::InstanceBound);
}

#[test]
fn int32_string_map_type() {
    let mut ctx = Context::new(Syntax::Proto2);
    ctx.add_map_type(entry(".pkg.Msg.NamesEntry", FieldType::Int32, FieldType::String));
    let f = message_field("names", Label::Repeated, ".pkg.Msg.NamesEntry");
    let expected = TypeAnnotation::MapOf(
        Box::new(TypeAnnotation::Primitive(Primitive::Number)),
        Box::new(TypeAnnotation::Primitive(Primitive::String)),
    );
    assert_eq!(f.type_annotation(&ctx), Ok(Some(expected)));
}

#[test]
fn unregistered_message_type_is_not_a_map() {
    let ctx = Context::new(Syntax::Proto3);
    let f = message_field("items", Label::Repeated, ".pkg.Item");
    assert!(!f.is_map(&ctx));
    assert_eq!(f.default_value_expr(&ctx), DefaultExpr::EmptyArray);
    assert_eq!(f.type_annotation(&ctx).unwrap().unwrap().to_source(), ".pkg.Item[]");
}

#[test]
fn later_registration_shadows_earlier() {
    let mut ctx = Context::new(Syntax::Proto3);
    ctx.add_map_type(entry(".E", FieldType::String, FieldType::String));
    ctx.add_map_type(entry(".E", FieldType::Int64, FieldType::Bool));
    assert_eq!(ctx.map_type_index(&".E".to_string()), Some(1));
    assert_eq!(ctx.map_type_index(&".F".to_string()), None);
    let f = message_field("m", Label::Repeated, ".E");
    assert_eq!(f.type_annotation(&ctx).unwrap().unwrap().to_source(), "Map<number, boolean>");
}

#[test]
fn bytes_field_defaults_and_presence() {
    let ctx = Context::new(Syntax::Proto3);
    let f = field("data", Label::Optional, FieldType::Bytes);
    assert_eq!(f.default_value_expr(&ctx), DefaultExpr::EmptyBytes);
    assert_eq!(f.default_value_expr(&ctx).to_source(), "new Uint8Array()");
    assert_eq!(presence_source(&f, &ctx), "this.data !== undefined && this.data.length !== 0");
    assert_eq!(f.type_annotation(&ctx), Ok(None));
}

#[test]
fn intermediate_accessor_reads_the_message() {
    let ctx = Context::new(Syntax::Proto2);
    let f = field("id", Label::Required, FieldType::Fixed32);
    let p = f.default_value_bin_expr(&ctx, AccessorMode::IntermediateBound);
    assert_eq!(p.to_source(), "message.id !== undefined");
}

#[test]
fn print_prop_composes_name_type_and_initializer() {
    let ctx = context_with_labels(Syntax::Proto3);
    let f = message_field("labels", Label::Repeated, ".pkg.Msg.LabelsEntry");
    let node = f.print_prop(&ctx, &DefaultRuntime).unwrap();
    assert_eq!(node.name, "labels");
    assert!(!node.optional);
    assert_eq!(node.type_ann.unwrap().to_source(), "Map<string, string>");
    assert_eq!(node.value, DefaultExpr::EmptyMap);

    let g = field("flag", Label::Optional, FieldType::Bool);
    let node = g.print_prop(&ctx, &DefaultRuntime).unwrap();
    assert!(node.optional);
    assert_eq!(node.type_ann, Some(TypeAnnotation::Primitive(Primitive::Boolean)));
    assert_eq!(node.value.to_source(), "undefined");
}

#[test]
fn nested_array_and_named_types_render() {
    let t = TypeAnnotation::MapOf(
        Box::new(TypeAnnotation::Primitive(Primitive::String)),
        Box::new(TypeAnnotation::ArrayOf(Box::new(TypeAnnotation::NamedRef("Foo".to_string())))),
    );
    assert_eq!(t.to_source(), "Map<string, Foo[]>");
    assert_eq!(DefaultExpr::EmptyArray.to_source(), "[]");
}

#[test]
fn map_value_that_is_itself_a_map_is_typed_recursively() {
    let mut ctx = Context::new(Syntax::Proto3);
    ctx.add_map_type(entry(".V", FieldType::String, FieldType::String));
    ctx.add_map_type(MapEntryType {
        name: ".E".to_string(),
        key: field("key", Label::Optional, FieldType::String),
        value: message_field("value", Label::Repeated, ".V"),
    });
    let f = message_field("nested", Label::Repeated, ".E");
    let t = f.type_annotation(&ctx).unwrap().unwrap();
    assert_eq!(t.to_source(), "Map<string, Map<string, string>>");
    assert_eq!(
        t,
        TypeAnnotation::MapOf(
            Box::new(TypeAnnotation::Primitive(Primitive::String)),
            Box::new(TypeAnnotation::MapOf(
                Box::new(TypeAnnotation::Primitive(Primitive::String)),
                Box::new(TypeAnnotation::Primitive(Primitive::String)),
            )),
        )
    );
}

#[test]
fn map_entry_that_contains_itself_is_an_error() {
    let mut ctx = Context::new(Syntax::Proto2);
    ctx.add_map_type(MapEntryType {
        name: ".C".to_string(),
        key: field("key", Label::Optional, FieldType::Int32),
        value: message_field("value", Label::Repeated, ".C"),
    });
    let f = message_field("loop", Label::Repeated, ".C");
    let err = f.type_annotation(&ctx).unwrap_err();
    assert_eq!(err, TypeError::CyclicMapEntry(".C".to_string()));
    assert_eq!(err.message(), "map entry type .C contains itself");
    assert!(f.print_prop(&ctx, &DefaultRuntime).is_err());
}
