use builder_synth::diagnostic::DiagnosticKind;
use builder_synth::runtime::{Built, Builder, SetterAction};
use builder_synth::schema::{
    AttrEntry, Delimiter, FieldDef, GenericArg, PathArgs, PathSegment, RecordBody, RecordDef, Span,
    Token, TypeExpr,
};
use builder_synth::synth::{generate, BuilderPlan, FieldKind, FieldRole};

fn plain(name: &str) -> TypeExpr {
    TypeExpr {
        id: name.len(),
        text: name.to_string(),
        path: Some(vec![PathSegment { ident: name.to_string(), args: PathArgs::Bare }]),
    }
}

fn wrapped(container: &str, inner: TypeExpr) -> TypeExpr {
    TypeExpr {
        id: inner.id + 1000,
        text: format!("{} < {} >", container, inner.text),
        path: Some(vec![PathSegment {
            ident: container.to_string(),
            args: PathArgs::AngleBracketed(vec![GenericArg::Type(inner)]),
        }]),
    }
}

fn each_attr(setter: &str, line: usize) -> AttrEntry {
    AttrEntry {
        span: Span::new(line * 100 + 4),
        path: vec!["builder".to_string()],
        tokens: vec![Token::Group(
            Delimiter::Parenthesis,
            vec![
                Token::Ident("each".to_string()),
                Token::Punct('='),
                Token::Str(setter.to_string()),
            ],
        )],
    }
}

fn field(name: &str, line: usize, ty: TypeExpr, attrs: Vec<AttrEntry>) -> FieldDef {
    FieldDef { name: name.to_string(), span: Span::new(line * 100 + 4), ty, attrs }
}

fn record(name: &str, fields: Vec<FieldDef>) -> RecordDef {
    RecordDef { name: name.to_string(), span: Span::new(100), body: RecordBody::Named(fields) }
}

fn plan_of(def: &RecordDef) -> BuilderPlan {
    match generate(def) {
        Ok(p) => p,
        Err(d) => panic!("unexpected diagnostic {:?}", d),
    }
}

#[derive(Clone, Copy, Debug, PartialEq)]
enum Value {
    U32(u32),
    U8(u8),
}

fn end_to_end_schema() -> RecordDef {
    record(
        "MyStruct",
        vec![
            field("value1", 2, plain("u32"), vec![]),
            field("value2", 4, wrapped("Vec", plain("u8")), vec![each_attr("push_v2", 3)]),
        ],
    )
}

#[test]
fn end_to_end_exposes_setters() {
    let plan = plan_of(&end_to_end_schema());
    assert_eq!(plan.record_name, "MyStruct");
    assert_eq!(plan.builder_name, "MyStructBuilder");
    assert_eq!(plan.find_setter(&"value1".to_string()), Some((0, SetterAction::Assign)));
    assert_eq!(plan.find_setter(&"push_v2".to_string()), Some((1, SetterAction::Append)));
    assert_eq!(plan.find_setter(&"value2".to_string()), Some((1, SetterAction::Assign)));
    assert_eq!(plan.find_setter(&"build".to_string()), None);
    assert_eq!(plan.fields[0].slot_type().text, "u32");
    assert_eq!(plan.fields[1].slot_type().id, 1002);
    match &plan.fields[1].kind {
        FieldKind::Accumulator(elem, setter) => {
            assert_eq!(elem.text, "u8");
            assert_eq!(elem.id, 2);
            assert_eq!(setter, "push_v2");
        }
        _ => panic!("value2 should be an accumulator"),
    }
}

#[test]
fn end_to_end_missing_required() {
    let plan = plan_of(&end_to_end_schema());
    let mut b: Builder<Value> = Builder::new(&plan);
    b.push(1, Value::U8(1));
    b.push(1, Value::U8(2));
    match b.build() {
        Err(m) => assert_eq!(m, "value1 must be set"),
        Ok(_) => panic!("build should fail"),
    }
}

#[test]
fn end_to_end_required_only() {
    let plan = plan_of(&end_to_end_schema());
    let mut b: Builder<Value> = Builder::new(&plan);
    b.set(0, Value::U32(7));
    let out = b.build().unwrap();
    assert_eq!(out.len(), 2);
    assert!(matches!(out[0], Built::Value(Value::U32(7))));
    match &out[1] {
        Built::Sequence(vs) => assert!(vs.is_empty()),
        _ => panic!("value2 should build as a sequence"),
    }
}

#[test]
fn retry_after_failure() {
    let plan = plan_of(&end_to_end_schema());
    let mut b: Builder<Value> = Builder::new(&plan);
    b.push(1, Value::U8(1));
    assert!(b.build().is_err());
    b.set(0, Value::U32(3));
    let out = b.build().unwrap();
    assert!(matches!(out[0], Built::Value(Value::U32(3))));
    match &out[1] {
        Built::Sequence(vs) => assert_eq!(vs, &vec![Value::U8(1)]),
        _ => panic!("value2 should build as a sequence"),
    }
}

#[test]
fn fresh_build_names_first_required() {
    let def = record(
        "R",
        vec![
            field("a", 2, wrapped("Option", plain("u8")), vec![]),
            field("b", 3, plain("u32"), vec![]),
            field("c", 4, plain("u32"), vec![]),
        ],
    );
    let plan = plan_of(&def);
    let b: Builder<u32> = Builder::new(&plan);
    assert_eq!(b.build().unwrap_err(), "b must be set");
}

#[test]
fn fresh_build_without_required_succeeds() {
    let def = record(
        "R",
        vec![
            field("a", 2, wrapped("Option", plain("u8")), vec![]),
            field("v", 4, wrapped("Vec", plain("u8")), vec![each_attr("add", 3)]),
        ],
    );
    let plan = plan_of(&def);
    let b: Builder<u32> = Builder::new(&plan);
    let out = b.build().unwrap();
    assert!(matches!(out[0], Built::Maybe(None)));
    match &out[1] {
        Built::Sequence(vs) => assert!(vs.is_empty()),
        _ => panic!("v should build as a sequence"),
    }
}

#[test]
fn setter_value_is_kept() {
    let def = record(
        "R",
        vec![
            field("req", 2, plain("u32"), vec![]),
            field("opt", 3, wrapped("Option", plain("u32")), vec![]),
        ],
    );
    let plan = plan_of(&def);
    let mut b: Builder<u32> = Builder::new(&plan);
    b.set(0, 1);
    b.set(0, 41);
    b.set(1, 5);
    let out = b.build().unwrap();
    assert!(matches!(out[0], Built::Value(41)));
    assert!(matches!(out[1], Built::Maybe(Some(5))));
}

#[test]
fn accumulator_keeps_call_order() {
    let def = record(
        "R",
        vec![field("items", 3, wrapped("Vec", plain("u32")), vec![each_attr("item", 2)])],
    );
    let plan = plan_of(&def);
    let mut b: Builder<u32> = Builder::new(&plan);
    for v in [3u32, 1, 2, 1] {
        b.push(0, v);
    }
    match &b.build().unwrap()[0] {
        Built::Sequence(vs) => assert_eq!(vs, &vec![3, 1, 2, 1]),
        _ => panic!("items should build as a sequence"),
    }
}

#[test]
fn accumulator_whole_sequence_setter() {
    let def = record(
        "R",
        vec![field("items", 3, wrapped("Vec", plain("u32")), vec![each_attr("item", 2)])],
    );
    let plan = plan_of(&def);
    assert_eq!(plan.fields[0].slot_type().text, "Vec < u32 >");
    let mut b: Builder<u32> = Builder::new(&plan);
    b.push(0, 9);
    b.set_sequence(0, vec![4, 5]);
    b.push(0, 6);
    match &b.build().unwrap()[0] {
        Built::Sequence(vs) => assert_eq!(vs, &vec![4, 5, 6]),
        _ => panic!("items should build as a sequence"),
    }
}

#[test]
fn optional_never_set_is_none() {
    let def = record(
        "R",
        vec![
            field("opt", 2, wrapped("Option", plain("String")), vec![]),
            field("n", 3, plain("u32"), vec![]),
        ],
    );
    let plan = plan_of(&def);
    let mut b: Builder<u32> = Builder::new(&plan);
    b.set(1, 8);
    let out = b.build().unwrap();
    assert!(matches!(out[0], Built::Maybe(None)));
    assert!(matches!(out[1], Built::Value(8)));
}

#[test]
fn roles_follow_declared_types() {
    let def = record(
        "R",
        vec![
            field("a", 2, plain("u32"), vec![]),
            field("b", 3, wrapped("Option", plain("u32")), vec![]),
            field("c", 5, wrapped("Vec", plain("u32")), vec![each_attr("c_item", 4)]),
            field("d", 6, wrapped("Vec", plain("u32")), vec![]),
        ],
    );
    let plan = plan_of(&def);
    let b: Builder<u32> = Builder::new(&plan);
    assert_eq!(b.len(), 4);
    assert_eq!(b.role(0), FieldRole::Required);
    assert_eq!(b.role(1), FieldRole::Optional);
    assert_eq!(b.role(2), FieldRole::Accumulator);
    assert_eq!(b.role(3), FieldRole::Required);
    assert!(plan.fields[2].starts_with_empty_sequence());
    assert!(!plan.fields[3].starts_with_empty_sequence());
    assert_eq!(plan.fields[1].slot_type().text, "u32");
    assert_eq!(plan.fields[1].missing_message(), None);
    assert_eq!(plan.fields[0].missing_message(), Some("a must be set".to_string()));
    assert_eq!(plan.fields[2].missing_message(), Some("c must be set".to_string()));
}

#[test]
fn setter_named_like_field_suppresses_plain_setter() {
    let def = record(
        "R",
        vec![field("arg", 3, wrapped("Vec", plain("String")), vec![each_attr("arg", 2)])],
    );
    let plan = plan_of(&def);
    assert!(!plan.fields[0].emit_plain_setter);
    assert_eq!(plan.find_setter(&"arg".to_string()), Some((0, SetterAction::Append)));
}

#[test]
fn unsupported_shapes_are_rejected() {
    for body in [RecordBody::Unnamed, RecordBody::Unit, RecordBody::Enum, RecordBody::Union] {
        let def = RecordDef { name: "E".to_string(), span: Span::new(702), body };
        let d = generate(&def).err().unwrap();
        assert_eq!(d.kind, DiagnosticKind::UnsupportedShape);
        assert_eq!(d.span, Span::new(702));
        assert_eq!(d.message(), "only structs with named fields are supported");
    }
}

#[test]
fn accumulator_needs_vec_type() {
    let def = record(
        "R",
        vec![
            field("ok", 2, plain("u32"), vec![]),
            field("bad", 9, wrapped("Option", wrapped("Vec", plain("u8"))), vec![each_attr("x", 8)]),
        ],
    );
    let d = generate(&def).err().unwrap();
    assert_eq!(d.kind, DiagnosticKind::AccumulatorNotSequence);
    assert_eq!(d.span, Span::new(904));
    assert_eq!(d.message(), "`each` requires a field of type `Vec<...>`");
}

#[test]
fn first_diagnostic_in_field_order_wins() {
    let mut bad_attr = each_attr("x", 5);
    bad_attr.tokens = vec![];
    let def = record(
        "R",
        vec![
            field("a", 3, plain("u8"), vec![each_attr("y", 2)]),
            field("b", 6, plain("u8"), vec![bad_attr]),
        ],
    );
    let d = generate(&def).err().unwrap();
    assert_eq!(d.kind, DiagnosticKind::AccumulatorNotSequence);
    assert_eq!(d.span, Span::new(304));
}

#[test]
fn empty_record_builds_empty() {
    let plan = plan_of(&record("Empty", vec![]));
    assert_eq!(plan.builder_name, "EmptyBuilder");
    let b: Builder<u8> = Builder::new(&plan);
    assert!(b.build().unwrap().is_empty());
}
