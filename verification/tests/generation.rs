use builder::assemble::{derive_checked, BuildStep, Initial, SlotType};
use builder::decorator::{field_supported, Diagnostic, Location, Target};
use builder::schema::{Attribute, FieldSchema, RecordSchema};
use builder::type_shape::TypeExpr;

fn field(name: &str, declared_type: TypeExpr, decorator: Option<&str>) -> FieldSchema {
    FieldSchema {
        name: name.to_string(),
        declared_type,
        attrs: decorator
            .iter()
            .map(|tokens| Attribute {
                path: vec!["builder".to_string()],
                tokens: tokens.to_string(),
            })
            .collect(),
    }
}

fn record(fields: Vec<FieldSchema>) -> RecordSchema {
    RecordSchema { name: "Job".to_string(), fields }
}

fn vec_of(element: &str) -> TypeExpr {
    TypeExpr::applied("Vec", TypeExpr::named(element))
}

#[test]
fn record_without_fields() {
    let schema = record(vec![]);
    let unit = derive_checked(&schema).unwrap().unwrap();
    assert_eq!(unit.record_name(), "Job");
    assert_eq!(unit.builder_type_name(), "JobBuilder");
    assert_eq!(unit.factory_name(), "builder");
    assert_eq!(unit.build_name(), "build");
    assert!(unit.storage_fields().is_empty());
    assert!(unit.methods().is_empty());
    assert!(unit.zero_value_ctor().is_empty());
    assert!(unit.build_routine().is_empty());
}

#[test]
fn one_slot_per_field_in_order() {
    let schema = record(vec![
        field("b", vec_of("u8"), None),
        field("a", TypeExpr::applied("Option", TypeExpr::named("u8")), None),
        field("c", vec_of("u8"), Some("(each = \"c\")")),
    ]);
    let unit = derive_checked(&schema).unwrap().unwrap();
    let names: Vec<&str> = unit.storage_fields().iter().map(|f| f.name.as_str()).collect();
    assert_eq!(names, vec!["b", "a", "c"]);
    assert_eq!(
        unit.storage_fields()[0].ty,
        SlotType::OptionOf { ty: &schema.fields[0].declared_type }
    );
    assert_eq!(
        unit.storage_fields()[1].ty,
        SlotType::Declared { ty: &schema.fields[1].declared_type }
    );
    assert_eq!(
        unit.storage_fields()[2].ty,
        SlotType::Declared { ty: &schema.fields[2].declared_type }
    );
    assert_eq!(unit.zero_value_ctor(), &vec![Initial::Absent, Initial::Absent, Initial::Empty]);
    assert_eq!(
        unit.build_routine(),
        &vec![
            BuildStep::Require { message: "b is not set".to_string() },
            BuildStep::Copy,
            BuildStep::Copy
        ]
    );
    let methods: Vec<&str> = unit.methods().iter().map(|m| m.name.as_str()).collect();
    assert_eq!(methods, vec!["b", "a", "c"]);
}

#[test]
fn malformed_decorator_gives_no_builder() {
    let schema = record(vec![
        field("a", TypeExpr::named("u8"), None),
        field("b", vec_of("u8"), Some("(each = 5)")),
    ]);
    assert_eq!(
        derive_checked(&schema),
        Some(Err(Diagnostic {
            message: "expected `builder(each = \"...\")`".to_string(),
            location: Location { field: "b".to_string(), target: Target::Value },
        }))
    );
}

#[test]
fn first_malformed_decorator_wins() {
    let schema = record(vec![
        field("a", vec_of("u8"), Some("(each = \"x\")")),
        field("b", vec_of("u8"), Some("(each = )")),
        field("c", vec_of("u8"), Some("(each)")),
    ]);
    assert_eq!(
        derive_checked(&schema),
        Some(Err(Diagnostic {
            message: "unexpected end of input, expected literal".to_string(),
            location: Location { field: "b".to_string(), target: Target::Decorator },
        }))
    );
}

#[test]
fn appender_needs_a_vec() {
    let on_string = field("a", TypeExpr::named("String"), Some("(each = \"x\")"));
    let on_option = field(
        "a",
        TypeExpr::applied("Option", vec_of("u8")),
        Some("(each = \"x\")"),
    );
    let on_vec = field("a", vec_of("u8"), Some("(each = \"x\")"));
    let malformed_on_string = field("a", TypeExpr::named("String"), Some("(each)"));
    let undecorated = field("a", TypeExpr::named("String"), None);
    assert!(!field_supported(&on_string));
    assert!(!field_supported(&on_option));
    assert!(field_supported(&on_vec));
    assert!(field_supported(&malformed_on_string));
    assert!(field_supported(&undecorated));
}

#[test]
fn unsupported_field_gives_nothing_even_after_a_malformed_one() {
    let schema = record(vec![
        field("a", vec_of("u8"), Some("(each)")),
        field("b", TypeExpr::named("String"), Some("(each = \"x\")")),
    ]);
    assert_eq!(derive_checked(&schema), None);
    let schema = record(vec![field("b", TypeExpr::named("String"), Some("(each = \"x\")"))]);
    assert_eq!(derive_checked(&schema), None);
}

#[test]
fn decorator_with_too_many_brackets_gives_no_builder() {
    let deep = format!("{}each = \"x\"{}", "(".repeat(257), ")".repeat(257));
    let crowded = Diagnostic {
        message: "too many brackets in the `builder` attribute".to_string(),
        location: Location { field: "b".to_string(), target: Target::Decorator },
    };
    let schema = record(vec![
        field("a", vec_of("u8"), Some("(each = \"x\")")),
        field("b", TypeExpr::named("String"), Some(&deep)),
        field("c", vec_of("u8"), Some("(each)")),
    ]);
    assert_eq!(derive_checked(&schema), Some(Err(crowded)));
    let schema = record(vec![
        field("a", vec_of("u8"), Some("(each)")),
        field("b", TypeExpr::named("String"), Some(&deep)),
    ]);
    assert_eq!(
        derive_checked(&schema),
        Some(Err(Diagnostic {
            message: "expected `builder(each = \"...\")`".to_string(),
            location: Location { field: "a".to_string(), target: Target::Argument },
        }))
    );
}
