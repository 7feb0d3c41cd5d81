//! The `builder` decorator of a field: finding it, reading it, and the
//! diagnostic for one that does not have the shape `builder(each = "...")`.
//!
//! No decorator is left out: whatever its text, reading it gives the name
//! of an appender or a diagnostic.

use crate::find::{first, lemma_first_is, lemma_first_none};
use crate::meta::{meta_of, parse_meta, Argument, ArgumentView, Literal, LiteralView, Meta, MetaView};
use crate::schema::{Attribute, AttributeView, FieldSchema, FieldSchemaView};
use crate::type_shape::{inner_type, ty_inner_type};
use vstd::prelude::*;

verus! {

/// The part of a decorator that a diagnostic points at.
#[derive(Debug, Clone, Copy, PartialEq, Eq)]
pub enum Target {
    /// The decorator as a whole. A diagnostic of `syn` points here too:
    /// where inside the decorator `syn` stopped is not carried.
    Decorator,
    /// The argument inside its parentheses.
    Argument,
    /// The value of its name-value pair.
    Value,
}

/// Where in the schema a diagnostic points.
#[derive(Debug, PartialEq, Eq)]
pub struct Location {
    /// The name of the field that carries the decorator.
    pub field: String,
    pub target: Target,
}

/// A location as a mathematical value.
pub struct LocationView {
    pub field: Seq<char>,
    pub target: Target,
}

impl View for Location {
    type V = LocationView;

    open spec fn view(&self) -> LocationView {
        LocationView { field: self.field@, target: self.target }
    }
}

/// Why no builder could be generated.
#[derive(Debug, PartialEq, Eq)]
pub struct Diagnostic {
    pub message: String,
    pub location: Location,
}

/// A diagnostic as a mathematical value.
pub struct DiagnosticView {
    pub message: Seq<char>,
    pub location: LocationView,
}

impl View for Diagnostic {
    type V = DiagnosticView;

    open spec fn view(&self) -> DiagnosticView {
        DiagnosticView { message: self.message@, location: self.location@ }
    }
}

/// The message for a decorator that is well-formed as an attribute but is
/// not `builder(each = "...")`.
pub open spec fn expected() -> Seq<char> {
    "expected `builder(each = \"...\")`"@
}

/// The message for a decorator that is well-formed as an attribute but is
/// not `builder(each = "...")`.
pub fn expected_message() -> (r: String)
    ensures
        r@ == expected(),
{
    "expected `builder(each = \"...\")`".to_owned()
}

/// An attribute is the decorator when its path is the one identifier `builder`.
pub open spec fn is_builder(attr: AttributeView) -> bool {
    attr.path.len() == 1 && attr.path[0] == "builder"@
}

/// The position of the decorator among the attributes: the first that
/// `is_builder` accepts.
pub open spec fn decorator_index(attrs: Seq<AttributeView>) -> Option<int> {
    first(attrs, |attr: AttributeView| is_builder(attr))
}

/// The decorator of a field, if it carries one.
pub fn builder_of(f: &FieldSchema) -> (r: Option<&Attribute>)
    ensures
        match r {
            Some(attr) => decorator_index(f@.attrs) matches Some(i) && 0 <= i < f.attrs.len()
                && *attr == f.attrs[i],
            None => decorator_index(f@.attrs) is None,
        },
{
    let ghost p = |attr: AttributeView| is_builder(attr);
    let mut i: usize = 0;
    while i < f.attrs.len()
        invariant
            i <= f.attrs.len(),
            p == (|attr: AttributeView| is_builder(attr)),
            forall|j: int| 0 <= j < i ==> !p(#[trigger] f@.attrs[j]),
        decreases f.attrs.len() - i,
    {
        let attr = &f.attrs[i];
        if attr.path.len() == 1 && attr.path[0] == "builder".to_owned() {
            proof {
                lemma_first_is(f@.attrs, p, i as int);
            }
            return Some(attr);
        }
        i = i + 1;
    }
    proof {
        lemma_first_none(f@.attrs, p);
    }
    None
}

/// What a decorator asks for, as read from its structure: the name of the
/// method that appends one element, or the message of the diagnostic and
/// the part of the decorator that it points at.
///
/// Only a list of exactly one argument, a pair whose name is `each` and
/// whose value is a string literal, names a method. A decorator that `syn`
/// could not read at all keeps the message of `syn`.
pub open spec fn each_of(meta: Result<MetaView, Seq<char>>) -> Result<Seq<char>, (Seq<char>, Target)> {
    match meta {
        Err(message) => Err((message, Target::Decorator)),
        Ok(MetaView::Other) => Err((expected(), Target::Decorator)),
        Ok(MetaView::List { arguments }) => {
            if arguments.len() != 1 {
                Err((expected(), Target::Decorator))
            } else {
                match arguments[0] {
                    ArgumentView::Other => Err((expected(), Target::Argument)),
                    ArgumentView::NameValue { name, value } => {
                        if name != "each"@ {
                            Err((expected(), Target::Decorator))
                        } else {
                            match value {
                                LiteralView::Str { value } => Ok(value),
                                LiteralView::Other => Err((expected(), Target::Value)),
                            }
                        }
                    },
                }
            }
        },
    }
}

/// The decision on a decorator.
///
/// A decorator names an appender exactly when it is a list of one
/// argument, a pair named `each` whose value is a string literal; the
/// appender has the name that the literal denotes. Every other decorator
/// that `syn` could read is refused with the fixed message, and one that
/// `syn` could not read with the message of `syn`.
pub proof fn law_decision(meta: Result<MetaView, Seq<char>>)
    ensures
        match each_of(meta) {
            Ok(name) => meta == Ok::<MetaView, Seq<char>>(
                MetaView::List {
                    arguments: seq![
                        ArgumentView::NameValue {
                            name: "each"@,
                            value: LiteralView::Str { value: name },
                        },
                    ],
                },
            ),
            Err(refusal) => match meta {
                Ok(read) => refusal.0 == expected(),
                Err(message) => refusal.0 == message,
            },
        },
{
    if let Ok(name) = each_of(meta) {
        let arguments = meta->Ok_0->arguments;
        assert(arguments =~= seq![
            ArgumentView::NameValue { name: "each"@, value: LiteralView::Str { value: name } },
        ]);
    }
}

/// What a field's decorator with the structure `meta` asks for: the name
/// of the appender and whether it is the field's own name, or the
/// diagnostic.
pub open spec fn decided(field: Seq<char>, meta: Result<MetaView, Seq<char>>) -> Result<
    (Seq<char>, bool),
    DiagnosticView,
> {
    match each_of(meta) {
        Ok(name) => Ok((name, name == field)),
        Err(refusal) => Err(
            DiagnosticView {
                message: refusal.0,
                location: LocationView { field, target: refusal.1 },
            },
        ),
    }
}

/// The view of what reading an attribute's content gave.
pub open spec fn reading(meta: Result<Meta, String>) -> Result<MetaView, Seq<char>> {
    match meta {
        Ok(meta) => Ok(meta@),
        Err(message) => Err(message@),
    }
}

/// The view of a decision.
pub open spec fn decision(r: Result<(String, bool), Diagnostic>) -> Result<
    (Seq<char>, bool),
    DiagnosticView,
> {
    match r {
        Ok(pair) => Ok((pair.0@, pair.1)),
        Err(diagnostic) => Err(diagnostic@),
    }
}

fn refuse(field: &str, message: String, target: Target) -> (r: Diagnostic)
    ensures
        r@ == (DiagnosticView {
            message: message@,
            location: LocationView { field: field@, target },
        }),
{
    Diagnostic { message, location: Location { field: field.to_owned(), target } }
}

/// Decides what the decorator of the field named `field` asks for, given
/// what reading its content gave.
pub fn decorator_from_meta(field: &str, meta: Result<Meta, String>) -> (r: Result<
    (String, bool),
    Diagnostic,
>)
    ensures
        decision(r) == decided(field@, reading(meta)),
{
    match meta {
        Err(message) => Err(refuse(field, message, Target::Decorator)),
        Ok(Meta::Other) => Err(refuse(field, expected_message(), Target::Decorator)),
        Ok(Meta::List { arguments }) => {
            let mut arguments = arguments;
            if arguments.len() != 1 {
                return Err(refuse(field, expected_message(), Target::Decorator));
            }
            match arguments.pop().unwrap() {
                Argument::NameValue { name, value } => {
                    if name != "each".to_owned() {
                        return Err(refuse(field, expected_message(), Target::Decorator));
                    }
                    match value {
                        Literal::Str { value } => {
                            let own = value == field.to_owned();
                            Ok((value, own))
                        },
                        Literal::Other => Err(refuse(field, expected_message(), Target::Value)),
                    }
                },
                Argument::Other => Err(refuse(field, expected_message(), Target::Argument)),
            }
        },
    }
}

/// The content of the decorator of `f` as written, if `f` carries one.
pub open spec fn raw_decorator(f: FieldSchemaView) -> Option<Seq<char>> {
    match decorator_index(f.attrs) {
        Some(i) => Some(f.attrs[i].text()),
        None => None,
    }
}

impl FieldSchema {
    /// The content of the field's decorator as written, if the field
    /// carries one.
    pub fn raw_decorator(&self) -> (r: Option<String>)
        ensures
            r.deep_view() == raw_decorator(self@),
    {
        match builder_of(self) {
            Some(attr) => {
                Some(attr.text())
            },
            None => None,
        }
    }
}

/// The message for a decorator that holds more brackets than are read.
pub open spec fn crowded() -> Seq<char> {
    "too many brackets in the `builder` attribute"@
}

/// The message for a decorator that holds more brackets than are read.
pub fn crowded_message() -> (r: String)
    ensures
        r@ == crowded(),
{
    "too many brackets in the `builder` attribute".to_owned()
}

/// What the decorator of `f` asks for: nothing where `f` has no decorator;
/// else the name of the appender and whether it is the field's own name,
/// or the diagnostic.
///
/// A decorator that holds more brackets than are read is not put before
/// `syn`: it is refused as a whole, with a message of its own.
pub open spec fn decorated(f: FieldSchemaView) -> Result<Option<(Seq<char>, bool)>, DiagnosticView> {
    match raw_decorator(f) {
        None => Ok(None),
        Some(text) => match meta_of(text) {
            None => Err(
                DiagnosticView {
                    message: crowded(),
                    location: LocationView { field: f.name, target: Target::Decorator },
                },
            ),
            Some(meta) => match decided(f.name, meta) {
                Ok(pair) => Ok(Some(pair)),
                Err(diagnostic) => Err(diagnostic),
            },
        },
    }
}

/// The view of what `parse_decorator` returns.
pub open spec fn request(r: Result<Option<(String, bool)>, Diagnostic>) -> Result<
    Option<(Seq<char>, bool)>,
    DiagnosticView,
> {
    match r {
        Ok(Some(pair)) => Ok(Some((pair.0@, pair.1))),
        Ok(None) => Ok(None),
        Err(diagnostic) => Err(diagnostic@),
    }
}

/// Reads the decorator of a field.
///
/// Every decorator that is not `builder(each = "...")` gives a
/// diagnostic, and so does one that holds too many brackets to be read.
pub fn parse_decorator(f: &FieldSchema) -> (r: Result<Option<(String, bool)>, Diagnostic>)
    ensures
        request(r) == decorated(f@),
{
    match f.raw_decorator() {
        None => Ok(None),
        Some(text) => match parse_meta(text.as_str()) {
            None => Err(refuse(f.name.as_str(), crowded_message(), Target::Decorator)),
            Some(meta) => match decorator_from_meta(f.name.as_str(), meta) {
                Ok(pair) => Ok(Some(pair)),
                Err(diagnostic) => Err(diagnostic),
            },
        },
    }
}

/// A field can be generated for unless its decorator names an appender
/// and its type is not `Vec` of one type: there is then no type for the
/// appender to take.
pub open spec fn supported(f: FieldSchemaView) -> bool {
    decorated(f) matches Ok(Some(_)) ==> inner_type("Vec"@, f.declared_type) is Some
}

/// Whether a field can be generated for.
pub fn field_supported(f: &FieldSchema) -> (r: bool)
    ensures
        r == supported(f@),
{
    match parse_decorator(f) {
        Ok(Some(_)) => ty_inner_type("Vec", &f.declared_type).is_some(),
        Ok(None) => true,
        Err(_) => true,
    }
}

} // verus!
