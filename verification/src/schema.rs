//! The input of a generation request: a record, its fields, and the
//! attributes written on them.

use crate::type_shape::{TypeExpr, TypeExprView};
use vstd::prelude::*;
use vstd::string::StringExecFns;

verus! {

/// An attribute on a field: `#[path tokens]`.
#[derive(Debug, PartialEq, Eq)]
pub struct Attribute {
    /// The identifiers of the attribute's path, in order.
    pub path: Vec<String>,
    /// What follows the path inside the brackets, as written.
    pub tokens: String,
}

/// An attribute as a mathematical value.
pub struct AttributeView {
    pub path: Seq<Seq<char>>,
    pub tokens: Seq<char>,
}

impl View for Attribute {
    type V = AttributeView;

    open spec fn view(&self) -> AttributeView {
        AttributeView { path: self.path.deep_view(), tokens: self.tokens@ }
    }
}

impl DeepView for Attribute {
    type V = AttributeView;

    open spec fn deep_view(&self) -> AttributeView {
        self@
    }
}

/// The segments of `path`, joined by `::`.
pub open spec fn joined(path: Seq<Seq<char>>) -> Seq<char>
    decreases path.len(),
{
    if path.len() == 0 {
        Seq::empty()
    } else if path.len() == 1 {
        path[0]
    } else {
        joined(path.drop_last()) + "::"@ + path.last()
    }
}

impl AttributeView {
    /// The attribute's content as one text: the path, a space, the tokens.
    pub open spec fn text(self) -> Seq<char> {
        joined(self.path) + " "@ + self.tokens
    }
}

impl Attribute {
    /// The attribute's content as one text: the path, a space, the tokens.
    pub fn text(&self) -> (r: String)
        ensures
            r@ == self@.text(),
    {
        let mut out = String::new();
        let mut i: usize = 0;
        while i < self.path.len()
            invariant
                i <= self.path.len(),
                out@ == joined(self.path.deep_view().take(i as int)),
            decreases self.path.len() - i,
        {
            let ghost before = self.path.deep_view().take(i as int);
            let ghost after = self.path.deep_view().take(i + 1);
            assert(after.drop_last() == before);
            if i > 0 {
                out.append("::");
            }
            out.append(self.path[i].as_str());
            i = i + 1;
        }
        assert(self.path.deep_view().take(i as int) == self.path.deep_view());
        out.append(" ");
        out.append(self.tokens.as_str());
        out
    }
}

/// One field of a record.
#[derive(Debug, PartialEq, Eq)]
pub struct FieldSchema {
    pub name: String,
    pub declared_type: TypeExpr,
    /// The attributes written on the field, in order.
    pub attrs: Vec<Attribute>,
}

/// A field as a mathematical value.
pub struct FieldSchemaView {
    pub name: Seq<char>,
    pub declared_type: TypeExprView,
    pub attrs: Seq<AttributeView>,
}

impl View for FieldSchema {
    type V = FieldSchemaView;

    open spec fn view(&self) -> FieldSchemaView {
        FieldSchemaView {
            name: self.name@,
            declared_type: self.declared_type@,
            attrs: self.attrs.deep_view(),
        }
    }
}

impl DeepView for FieldSchema {
    type V = FieldSchemaView;

    open spec fn deep_view(&self) -> FieldSchemaView {
        self@
    }
}

/// A record with named fields. The order of the fields is the order of
/// everything that is generated from them.
#[derive(Debug, PartialEq, Eq)]
pub struct RecordSchema {
    pub name: String,
    pub fields: Vec<FieldSchema>,
}

/// A record as a mathematical value.
pub struct RecordSchemaView {
    pub name: Seq<char>,
    pub fields: Seq<FieldSchemaView>,
}

impl View for RecordSchema {
    type V = RecordSchemaView;

    open spec fn view(&self) -> RecordSchemaView {
        RecordSchemaView { name: self.name@, fields: self.fields.deep_view() }
    }
}

} // verus!
