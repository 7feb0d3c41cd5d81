use builder::decorator::{
    builder_of, crowded_message, decorator_from_meta, expected_message, field_supported,
    parse_decorator, Diagnostic, Location, Target,
};
use builder::meta::{is_shallow, parse_meta, Argument, Literal, Meta, MAX_BRACKETS};
use builder::schema::{Attribute, FieldSchema};
use builder::type_shape::TypeExpr;

const EXPECTED: &str = "expected `builder(each = \"...\")`";

fn attribute(path: &[&str], tokens: &str) -> Attribute {
    Attribute { path: path.iter().map(|s| s.to_string()).collect(), tokens: tokens.to_string() }
}

fn field(name: &str, attrs: Vec<Attribute>) -> FieldSchema {
    FieldSchema { name: name.to_string(), declared_type: TypeExpr::named("String"), attrs }
}

fn decorated(name: &str, tokens: &str) -> FieldSchema {
    field(name, vec![attribute(&["builder"], tokens)])
}

fn refusal(name: &str, message: &str, target: Target) -> Diagnostic {
    Diagnostic {
        message: message.to_string(),
        location: Location { field: name.to_string(), target },
    }
}

fn each(name: &str, value: Literal) -> Argument {
    Argument::NameValue { name: name.to_string(), value }
}

fn text(value: &str) -> Literal {
    Literal::Str { value: value.to_string() }
}

#[test]
fn attribute_text_is_path_space_tokens() {
    assert_eq!(attribute(&["builder"], "(each = \"arg\")").text(), "builder (each = \"arg\")");
    assert_eq!(attribute(&["a", "b", "c"], "= 1").text(), "a::b::c = 1");
    assert_eq!(attribute(&["test"], "").text(), "test ");
    assert_eq!(attribute(&[], "x").text(), " x");
}

#[test]
fn fixed_message() {
    assert_eq!(expected_message(), EXPECTED);
}

#[test]
fn reads_a_list() {
    assert_eq!(
        parse_meta("builder(each = \"arg\")"),
        Some(Ok(Meta::List { arguments: vec![each("each", text("arg"))] }))
    );
}

#[test]
fn reads_every_argument_of_a_list() {
    assert_eq!(
        parse_meta("x(a, b = 1, \"lit\", c(d), e = \"f\", g::h = r#\"i\"#)"),
        Some(Ok(Meta::List {
            arguments: vec![
                Argument::Other,
                each("b", Literal::Other),
                Argument::Other,
                Argument::Other,
                each("e", text("f")),
                each("g :: h", text("i")),
            ],
        }))
    );
    assert_eq!(parse_meta("x()"), Some(Ok(Meta::List { arguments: vec![] })));
}

#[test]
fn reads_what_a_string_literal_denotes() {
    assert_eq!(
        parse_meta("x(each = \"a\\\"b\\n\")"),
        Some(Ok(Meta::List { arguments: vec![each("each", text("a\"b\n"))] }))
    );
}

#[test]
fn reads_a_path_and_a_name_value() {
    assert_eq!(parse_meta("builder"), Some(Ok(Meta::Other)));
    assert_eq!(parse_meta("builder = \"each\""), Some(Ok(Meta::Other)));
}

#[test]
fn reports_what_syn_refuses() {
    assert_eq!(
        parse_meta("builder(each = )"),
        Some(Err("unexpected end of input, expected literal".to_string()))
    );
    assert_eq!(
        parse_meta("builder(each = \"a\" \"b\")"),
        Some(Err("expected `,`".to_string()))
    );
    assert_eq!(parse_meta("builder(each = \"a"), Some(Err("lex error".to_string())));
    assert_eq!(parse_meta("builder x"), Some(Err("unexpected token".to_string())));
    assert_eq!(parse_meta(""), Some(Err("unexpected end of input, expected path".to_string())));
}

#[test]
fn literal_with_an_unknown_prefix_is_no_literal() {
    assert_eq!(parse_meta("builder(each = c\"x\")"), Some(Err("expected literal".to_string())));
    assert_eq!(
        parse_decorator(&decorated("args", "(each = c\"x\")")),
        Err(refusal("args", "expected literal", Target::Decorator))
    );
}

fn nested(depth: usize) -> String {
    let mut text = String::from("builder");
    for _ in 0..depth {
        text.push_str("(a");
    }
    for _ in 0..depth {
        text.push(')');
    }
    text
}

const CROWDED: &str = "too many brackets in the `builder` attribute";

#[test]
fn counts_opening_brackets() {
    assert_eq!(MAX_BRACKETS, 256);
    assert!(is_shallow(""));
    assert!(is_shallow("builder(each = \"arg\")"));
    assert!(is_shallow(&"([{".repeat(85)));
    assert!(!is_shallow(&"([{".repeat(86)));
    assert!(is_shallow(&"(".repeat(256)));
    assert!(!is_shallow(&"(".repeat(257)));
    assert!(!is_shallow(&"{".repeat(257)));
    assert!(!is_shallow(&"[\u{e9}".repeat(257)));
    assert!(is_shallow(&")]}\u{e9}<".repeat(1000)));
    assert!(is_shallow(&nested(256)));
    assert!(!is_shallow(&nested(257)));
}

#[test]
fn reads_brackets_nested_as_deep_as_they_may_be() {
    assert_eq!(
        parse_meta(&nested(256)),
        Some(Ok(Meta::List { arguments: vec![Argument::Other] }))
    );
    let groups = format!("builder(x = {}{})", "[".repeat(255), "]".repeat(255));
    assert_eq!(parse_meta(&groups), Some(Err("expected literal".to_string())));
}

#[test]
fn text_with_too_many_brackets_is_not_put_before_syn() {
    assert_eq!(parse_meta(&nested(257)), None);
    assert_eq!(parse_meta(&nested(5000)), None);
    let in_a_literal = format!("builder(each = \"{}\")", "(".repeat(256));
    assert_eq!(parse_meta(&in_a_literal), None);
    let brackets = format!("builder({}{})", "[".repeat(100_000), "]".repeat(100_000));
    assert_eq!(parse_meta(&brackets), None);
}

#[test]
fn doc_comment_is_no_argument() {
    let comments = format!("builder({} a)", "/** c */".repeat(300));
    assert!(is_shallow(&comments));
    assert_eq!(parse_meta(&comments), Some(Err("expected identifier or literal".to_string())));
}

#[test]
fn decorator_with_too_many_brackets_gives_a_diagnostic() {
    let deep = nested(257);
    let f = decorated("args", deep.strip_prefix("builder").unwrap());
    assert_eq!(parse_decorator(&f), Err(refusal("args", CROWDED, Target::Decorator)));
    assert!(field_supported(&f));
    let side_by_side = format!("({})", "()".repeat(256));
    assert_eq!(
        parse_decorator(&decorated("args", &side_by_side)),
        Err(refusal("args", CROWDED, Target::Decorator))
    );
    let seventeen = format!("({})", "(), ".repeat(17));
    assert_eq!(
        parse_decorator(&decorated("args", &seventeen)),
        Err(refusal("args", "expected identifier or literal", Target::Decorator))
    );
    let nested_list = format!("(each{}{})", "(a".repeat(17), ")".repeat(17));
    assert_eq!(
        parse_decorator(&decorated("args", &nested_list)),
        Err(refusal("args", EXPECTED, Target::Argument))
    );
}

#[test]
fn messages_of_the_library() {
    assert_eq!(expected_message(), EXPECTED);
    assert_eq!(crowded_message(), CROWDED);
}

#[test]
fn finds_the_first_builder_attribute() {
    let f = field(
        "x",
        vec![
            attribute(&["doc"], "= \"text\""),
            attribute(&["builder"], "(each = \"a\")"),
            attribute(&["builder"], "(each = \"b\")"),
        ],
    );
    assert_eq!(builder_of(&f), Some(&f.attrs[1]));
    assert_eq!(parse_decorator(&f), Ok(Some(("a".to_string(), false))));
}

#[test]
fn raw_decorator_is_the_text_of_the_first_builder_attribute() {
    let f = field(
        "x",
        vec![
            attribute(&["doc"], "= \"text\""),
            attribute(&["builder"], "(each = \"a\")"),
            attribute(&["builder"], "(each = \"b\")"),
        ],
    );
    assert_eq!(f.raw_decorator(), Some("builder (each = \"a\")".to_string()));
    assert_eq!(field("x", vec![attribute(&["doc"], "")]).raw_decorator(), None);
    assert_eq!(field("x", vec![]).raw_decorator(), None);
}

#[test]
fn builder_path_is_the_one_identifier() {
    assert_eq!(builder_of(&field("x", vec![])), None);
    assert_eq!(builder_of(&field("x", vec![attribute(&["doc"], "")])), None);
    assert_eq!(builder_of(&field("x", vec![attribute(&["builder", "each"], "")])), None);
    assert_eq!(builder_of(&field("x", vec![attribute(&["my", "builder"], "")])), None);
    assert_eq!(builder_of(&field("x", vec![attribute(&["Builder"], "")])), None);
    assert_eq!(builder_of(&field("x", vec![attribute(&[], "")])), None);
}

#[test]
fn field_without_decorator_asks_for_nothing() {
    assert_eq!(parse_decorator(&field("x", vec![])), Ok(None));
    assert_eq!(
        parse_decorator(&field("x", vec![attribute(&["serde"], "(each = 5)")])),
        Ok(None)
    );
}

#[test]
fn each_names_the_appender() {
    assert_eq!(
        parse_decorator(&decorated("args", "(each = \"arg\")")),
        Ok(Some(("arg".to_string(), false)))
    );
}

#[test]
fn appender_may_have_the_name_of_the_field() {
    assert_eq!(
        parse_decorator(&decorated("env", "(each = \"env\")")),
        Ok(Some(("env".to_string(), true)))
    );
}

#[test]
fn each_without_value_is_refused() {
    assert_eq!(
        parse_decorator(&decorated("args", "(each)")),
        Err(refusal("args", EXPECTED, Target::Argument))
    );
}

#[test]
fn wrong_key_is_refused() {
    assert_eq!(
        parse_decorator(&decorated("args", "(foo = \"x\")")),
        Err(refusal("args", EXPECTED, Target::Decorator))
    );
    assert_eq!(
        parse_decorator(&decorated("args", "(each::x = \"x\")")),
        Err(refusal("args", EXPECTED, Target::Decorator))
    );
}

#[test]
fn value_that_is_no_string_is_refused() {
    assert_eq!(
        parse_decorator(&decorated("args", "(each = 5)")),
        Err(refusal("args", EXPECTED, Target::Value))
    );
    assert_eq!(
        parse_decorator(&decorated("args", "(each = b\"arg\")")),
        Err(refusal("args", EXPECTED, Target::Value))
    );
}

#[test]
fn decorator_without_one_argument_is_refused() {
    for tokens in ["", "()", "(each = \"a\", each = \"b\")", "= \"arg\""] {
        assert_eq!(
            parse_decorator(&decorated("args", tokens)),
            Err(refusal("args", EXPECTED, Target::Decorator)),
            "{}",
            tokens
        );
    }
}

#[test]
fn argument_that_is_no_pair_is_refused() {
    for tokens in ["(\"each\")", "(each(arg))", "(5)"] {
        assert_eq!(
            parse_decorator(&decorated("args", tokens)),
            Err(refusal("args", EXPECTED, Target::Argument)),
            "{}",
            tokens
        );
    }
}

#[test]
fn broken_syntax_keeps_the_message_of_syn() {
    assert_eq!(
        parse_decorator(&decorated("args", "(each = )")),
        Err(refusal("args", "unexpected end of input, expected literal", Target::Decorator))
    );
    assert_eq!(
        parse_decorator(&decorated("args", "(each = \"a")),
        Err(refusal("args", "lex error", Target::Decorator))
    );
}

#[test]
fn decision_on_given_structures() {
    let list = |arguments| Ok(Meta::List { arguments });
    assert_eq!(
        decorator_from_meta("args", list(vec![each("each", text("arg"))])),
        Ok(("arg".to_string(), false))
    );
    assert_eq!(
        decorator_from_meta("arg", list(vec![each("each", text("arg"))])),
        Ok(("arg".to_string(), true))
    );
    assert_eq!(
        decorator_from_meta("f", Err("no good".to_string())),
        Err(refusal("f", "no good", Target::Decorator))
    );
    assert_eq!(
        decorator_from_meta("f", Ok(Meta::Other)),
        Err(refusal("f", EXPECTED, Target::Decorator))
    );
    assert_eq!(
        decorator_from_meta("f", list(vec![])),
        Err(refusal("f", EXPECTED, Target::Decorator))
    );
    assert_eq!(
        decorator_from_meta("f", list(vec![each("each", text("a")), each("each", text("b"))])),
        Err(refusal("f", EXPECTED, Target::Decorator))
    );
    assert_eq!(
        decorator_from_meta("f", list(vec![Argument::Other])),
        Err(refusal("f", EXPECTED, Target::Argument))
    );
    assert_eq!(
        decorator_from_meta("f", list(vec![each("Each", text("a"))])),
        Err(refusal("f", EXPECTED, Target::Decorator))
    );
    assert_eq!(
        decorator_from_meta("f", list(vec![each("each", Literal::Other)])),
        Err(refusal("f", EXPECTED, Target::Value))
    );
}
