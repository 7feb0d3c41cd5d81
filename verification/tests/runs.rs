use builder::assemble::{derive_checked, GeneratedUnit};
use builder::semantics::{Builder, CallError, FieldValue, Input, Slot};
use builder::schema::{Attribute, FieldSchema, RecordSchema};
use builder::type_shape::TypeExpr;

fn field(name: &str, declared_type: TypeExpr, each: Option<&str>) -> FieldSchema {
    FieldSchema {
        name: name.to_string(),
        declared_type,
        attrs: each
            .iter()
            .map(|method| Attribute {
                path: vec!["builder".to_string()],
                tokens: format!("(each = \"{}\")", method),
            })
            .collect(),
    }
}

fn plain(name: &str) -> FieldSchema {
    field(name, TypeExpr::named("String"), None)
}

fn optional(name: &str) -> FieldSchema {
    field(name, TypeExpr::applied("Option", TypeExpr::named("String")), None)
}

fn repeated(name: &str, each: &str) -> FieldSchema {
    field(name, TypeExpr::applied("Vec", TypeExpr::named("String")), Some(each))
}

fn record(fields: Vec<FieldSchema>) -> RecordSchema {
    RecordSchema { name: "Job".to_string(), fields }
}

fn generate(schema: &RecordSchema) -> GeneratedUnit<'_> {
    derive_checked(schema).unwrap().unwrap()
}

fn one(text: &str) -> Input {
    Input::One(text.to_string())
}

fn many(texts: &[&str]) -> Input {
    Input::Many(texts.iter().map(|t| t.to_string()).collect())
}

fn texts(values: &[&str]) -> Vec<String> {
    values.iter().map(|t| t.to_string()).collect()
}

fn value_of(builder: &Builder, index: usize) -> FieldValue {
    let mut record = builder.build().unwrap();
    record.fields.swap_remove(index).value
}

#[test]
fn empty_builder() {
    let schema = record(vec![plain("a"), optional("b"), repeated("c", "d")]);
    let unit = generate(&schema);
    let builder = Builder::new(&unit).unwrap();
    assert_eq!(
        builder.slots(),
        &vec![Slot::Single(None), Slot::Single(None), Slot::Many(vec![])]
    );
    assert_eq!(builder.unit(), &unit);
}

#[test]
fn builder_of_a_record_without_fields() {
    let schema = record(vec![]);
    let unit = generate(&schema);
    let mut builder = Builder::new(&unit).unwrap();
    assert_eq!(builder.call("a", one("x")).unwrap_err(), CallError::NoSuchMethod);
    let built = builder.build().unwrap();
    assert_eq!(built.name, "Job");
    assert!(built.fields.is_empty());
}

#[test]
fn plain_field_set_then_built() {
    let schema = record(vec![plain("a")]);
    let unit = generate(&schema);
    let mut builder = Builder::new(&unit).unwrap();
    builder.call("a", one("x")).unwrap();
    assert_eq!(value_of(&builder, 0), FieldValue::Required("x".to_string()));
}

#[test]
fn plain_field_omitted_fails_and_names_the_field() {
    let schema = record(vec![plain("a"), plain("b"), optional("c")]);
    let unit = generate(&schema);
    let mut builder = Builder::new(&unit).unwrap();
    builder.call("a", one("x")).unwrap().call("c", one("y")).unwrap();
    assert_eq!(builder.build(), Err("b is not set".to_string()));
}

#[test]
fn first_missing_field_is_named() {
    let schema = record(vec![plain("a"), plain("b")]);
    let unit = generate(&schema);
    let mut builder = Builder::new(&unit).unwrap();
    assert_eq!(builder.build(), Err("a is not set".to_string()));
    builder.call("b", one("x")).unwrap();
    assert_eq!(builder.build(), Err("a is not set".to_string()));
    builder.call("a", one("y")).unwrap();
    assert!(builder.build().is_ok());
}

#[test]
fn optional_field_set_or_omitted() {
    let schema = record(vec![optional("a")]);
    let unit = generate(&schema);
    let mut builder = Builder::new(&unit).unwrap();
    assert_eq!(value_of(&builder, 0), FieldValue::Optional(None));
    builder.call("a", one("x")).unwrap();
    assert_eq!(value_of(&builder, 0), FieldValue::Optional(Some("x".to_string())));
}

#[test]
fn last_value_wins() {
    let schema = record(vec![plain("a"), optional("b")]);
    let unit = generate(&schema);
    let mut builder = Builder::new(&unit).unwrap();
    builder
        .call("a", one("1"))
        .unwrap()
        .call("b", one("2"))
        .unwrap()
        .call("a", one("3"))
        .unwrap()
        .call("b", one("4"))
        .unwrap();
    assert_eq!(value_of(&builder, 0), FieldValue::Required("3".to_string()));
    assert_eq!(value_of(&builder, 1), FieldValue::Optional(Some("4".to_string())));
}

#[test]
fn appends_keep_order_and_duplicates() {
    let schema = record(vec![repeated("args", "arg"), repeated("env", "env")]);
    let unit = generate(&schema);
    let mut builder = Builder::new(&unit).unwrap();
    for value in ["b", "a", "b", "b", "c"] {
        builder.call("arg", one(value)).unwrap().call("env", one("e")).unwrap();
    }
    assert_eq!(value_of(&builder, 0), FieldValue::Repeated(texts(&["b", "a", "b", "b", "c"])));
    assert_eq!(value_of(&builder, 1), FieldValue::Repeated(texts(&["e", "e", "e", "e", "e"])));
}

#[test]
fn whole_sequence_replaces_what_was_appended() {
    let schema = record(vec![repeated("args", "arg")]);
    let unit = generate(&schema);
    let mut builder = Builder::new(&unit).unwrap();
    builder
        .call("arg", one("a"))
        .unwrap()
        .call("arg", one("b"))
        .unwrap()
        .call("args", many(&["x"]))
        .unwrap();
    assert_eq!(value_of(&builder, 0), FieldValue::Repeated(texts(&["x"])));
    builder.call("arg", one("y")).unwrap();
    assert_eq!(value_of(&builder, 0), FieldValue::Repeated(texts(&["x", "y"])));
    builder.call("args", many(&[])).unwrap();
    assert_eq!(value_of(&builder, 0), FieldValue::Repeated(vec![]));
}

#[test]
fn untouched_repeated_field_is_empty() {
    let schema = record(vec![repeated("args", "arg")]);
    let unit = generate(&schema);
    let builder = Builder::new(&unit).unwrap();
    assert_eq!(value_of(&builder, 0), FieldValue::Repeated(vec![]));
}

#[test]
fn call_touches_one_slot() {
    let schema = record(vec![plain("a"), optional("b"), repeated("c", "d")]);
    let unit = generate(&schema);
    let mut builder = Builder::new(&unit).unwrap();
    builder.call("d", one("x")).unwrap();
    assert_eq!(
        builder.slots(),
        &vec![Slot::Single(None), Slot::Single(None), Slot::Many(texts(&["x"]))]
    );
    builder.call("b", one("y")).unwrap();
    assert_eq!(
        builder.slots(),
        &vec![
            Slot::Single(None),
            Slot::Single(Some("y".to_string())),
            Slot::Many(texts(&["x"]))
        ]
    );
}

#[test]
fn refused_call_changes_nothing() {
    let schema = record(vec![plain("a"), repeated("c", "d")]);
    let unit = generate(&schema);
    let mut builder = Builder::new(&unit).unwrap();
    builder.call("a", one("x")).unwrap().call("d", one("y")).unwrap();
    let before = format!("{:?}", builder.slots());
    assert_eq!(builder.call("nope", one("z")).unwrap_err(), CallError::NoSuchMethod);
    assert_eq!(builder.call("build", one("z")).unwrap_err(), CallError::NoSuchMethod);
    assert_eq!(builder.call("a", many(&["z"])).unwrap_err(), CallError::WrongArgument);
    assert_eq!(builder.call("c", one("z")).unwrap_err(), CallError::WrongArgument);
    assert_eq!(builder.call("d", many(&["z"])).unwrap_err(), CallError::WrongArgument);
    assert_eq!(format!("{:?}", builder.slots()), before);
}

#[test]
fn building_leaves_the_builder_as_it_is() {
    let schema = record(vec![plain("a"), repeated("c", "d")]);
    let unit = generate(&schema);
    let mut builder = Builder::new(&unit).unwrap();
    builder.call("a", one("x")).unwrap().call("d", one("y")).unwrap();
    let first = builder.build().unwrap();
    let second = builder.build().unwrap();
    assert_eq!(first, second);
    builder.call("d", one("z")).unwrap();
    assert_eq!(value_of(&builder, 1), FieldValue::Repeated(texts(&["y", "z"])));
}

#[test]
fn clashing_names_give_no_builder() {
    let twice = record(vec![plain("a"), optional("a")]);
    let appender_as_other_field = record(vec![repeated("args", "x"), plain("x")]);
    let same_appender = record(vec![repeated("a", "x"), repeated("b", "x")]);
    let named_build = record(vec![plain("build")]);
    let appender_named_build = record(vec![repeated("steps", "build")]);
    for schema in
        [&twice, &appender_as_other_field, &same_appender, &named_build, &appender_named_build]
    {
        let unit = generate(schema);
        assert!(!unit.is_unambiguous());
        assert!(Builder::new(&unit).is_none());
    }
    let fine = record(vec![plain("builder"), repeated("a", "x"), repeated("y", "y")]);
    let unit = generate(&fine);
    assert!(unit.is_unambiguous());
    assert!(Builder::new(&unit).is_some());
}

#[test]
fn names_of_methods_and_fields() {
    let schema = record(vec![plain("a"), repeated("c", "d"), repeated("e", "e")]);
    let unit = generate(&schema);
    assert_eq!(unit.method_names(), vec!["a", "c", "d", "e"]);
    assert_eq!(unit.field_names(), vec!["a", "c", "e"]);
}
