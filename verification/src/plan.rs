//! From a field to the methods that the builder gets for it.

use crate::decorator::{decorated, parse_decorator, supported, Diagnostic, DiagnosticView};
use crate::schema::{FieldSchema, FieldSchemaView};
use crate::type_shape::{inner_type, ty_inner_type, TypeExpr, TypeExprView};
use vstd::prelude::*;

verus! {

/// How a field is generated for.
#[derive(Debug, PartialEq, Eq)]
pub enum FieldShape<'a> {
    /// The type is used as it is; the field must be set before assembly.
    Plain { ty: &'a TypeExpr },
    /// The type is `Option` of `inner`; the field may stay absent.
    Optional { inner: &'a TypeExpr },
    /// The type is `Vec` of `element`, and the decorator names the method
    /// that appends one element; the field starts out empty.
    Repeated { element: &'a TypeExpr, method_name: String },
}

/// The shape of a field as a mathematical value.
pub enum ShapeView {
    Plain { ty: TypeExprView },
    Optional { inner: TypeExprView },
    Repeated { element: TypeExprView, method_name: Seq<char> },
}

impl<'a> View for FieldShape<'a> {
    type V = ShapeView;

    open spec fn view(&self) -> ShapeView {
        match self {
            FieldShape::Plain { ty } => ShapeView::Plain { ty: ty@ },
            FieldShape::Optional { inner } => ShapeView::Optional { inner: inner@ },
            FieldShape::Repeated { element, method_name } => ShapeView::Repeated {
                element: element@,
                method_name: method_name@,
            },
        }
    }
}

/// What a generated method does with its argument.
#[derive(Debug, Clone, Copy, PartialEq, Eq)]
pub enum Action {
    /// Stores the argument as the present value of its slot.
    Assign,
    /// Replaces the sequence in its slot by the argument.
    Replace,
    /// Appends the argument to the sequence in its slot.
    Append,
}

/// The two kinds of generated method.
#[derive(Debug, Clone, Copy, PartialEq, Eq)]
pub enum MethodKind {
    /// Sets the field as a whole.
    SetWhole,
    /// Appends one element to the field.
    AppendOne,
}

impl Action {
    pub open spec fn spec_kind(self) -> MethodKind {
        match self {
            Action::Assign => MethodKind::SetWhole,
            Action::Replace => MethodKind::SetWhole,
            Action::Append => MethodKind::AppendOne,
        }
    }

    /// The kind of method that performs this action.
    #[verifier::when_used_as_spec(spec_kind)]
    pub fn kind(self) -> (r: MethodKind)
        ensures
            r == self.spec_kind(),
    {
        match self {
            Action::Assign => MethodKind::SetWhole,
            Action::Replace => MethodKind::SetWhole,
            Action::Append => MethodKind::AppendOne,
        }
    }
}

/// A method of the builder. It takes one argument, named like the method,
/// acts on the slot of `field`, and returns the builder itself, so that
/// calls can be chained.
#[derive(Debug, PartialEq, Eq)]
pub struct Method<'a> {
    pub name: String,
    /// The name of the field whose slot the method acts on.
    pub field: String,
    /// The type of the argument.
    pub param: &'a TypeExpr,
    pub action: Action,
}

/// A method as a mathematical value.
pub struct MethodView {
    pub name: Seq<char>,
    pub field: Seq<char>,
    pub param: TypeExprView,
    pub action: Action,
}

impl<'a> View for Method<'a> {
    type V = MethodView;

    open spec fn view(&self) -> MethodView {
        MethodView {
            name: self.name@,
            field: self.field@,
            param: self.param@,
            action: self.action,
        }
    }
}

impl<'a> DeepView for Method<'a> {
    type V = MethodView;

    open spec fn deep_view(&self) -> MethodView {
        self@
    }
}

/// The methods generated for one field: at least one of the two.
#[derive(Debug, PartialEq, Eq)]
pub struct MethodPlan<'a> {
    pub set_whole: Option<Method<'a>>,
    pub append_one: Option<Method<'a>>,
}

/// The methods for one field as a mathematical value.
pub struct MethodPlanView {
    pub set_whole: Option<MethodView>,
    pub append_one: Option<MethodView>,
}

impl<'a> View for MethodPlan<'a> {
    type V = MethodPlanView;

    open spec fn view(&self) -> MethodPlanView {
        MethodPlanView {
            set_whole: match self.set_whole {
                Some(m) => Some(m@),
                None => None,
            },
            append_one: match self.append_one {
                Some(m) => Some(m@),
                None => None,
            },
        }
    }
}

impl MethodPlanView {
    /// The planned methods in the order in which they are declared.
    pub open spec fn methods(self) -> Seq<MethodView> {
        let first = match self.set_whole {
            Some(m) => seq![m],
            None => Seq::empty(),
        };
        match self.append_one {
            Some(m) => first.push(m),
            None => first,
        }
    }
}

/// The appender that the decorator of `f` asks for, with the flag that
/// says whether it takes the place of the setter; or the diagnostic; or
/// nothing where `f` has no decorator.
pub open spec fn extension(f: FieldSchemaView) -> Option<Result<(bool, MethodView), DiagnosticView>> {
    match decorated(f) {
        Ok(None) => None,
        Err(diagnostic) => Some(Err(diagnostic)),
        Ok(Some(pair)) => Some(
            Ok(
                (
                    pair.1,
                    MethodView {
                        name: pair.0,
                        field: f.name,
                        param: inner_type("Vec"@, f.declared_type)->0,
                        action: Action::Append,
                    },
                ),
            ),
        ),
    }
}

/// The appender for a field, as its decorator asks for it.
///
/// The flag is set where the appender has the field's own name: a setter
/// of that name cannot stand beside it.
pub fn extend_method<'a>(f: &'a FieldSchema) -> (r: Option<Result<(bool, Method<'a>), Diagnostic>>)
    requires
        supported(f@),
    ensures
        match r {
            None => extension(f@) is None,
            Some(Err(diagnostic)) => extension(f@) == Some(
                Err::<(bool, MethodView), DiagnosticView>(diagnostic@),
            ),
            Some(Ok(pair)) => extension(f@) == Some(
                Ok::<(bool, MethodView), DiagnosticView>((pair.0, pair.1@)),
            ),
        },
{
    match parse_decorator(f) {
        Ok(None) => None,
        Err(diagnostic) => Some(Err(diagnostic)),
        Ok(Some(pair)) => {
            let (name, own) = pair;
            let element = ty_inner_type("Vec", &f.declared_type).unwrap();
            Some(
                Ok(
                    (
                        own,
                        Method { name, field: f.name.clone(), param: element, action: Action::Append },
                    ),
                ),
            )
        },
    }
}

/// The shape of a field, or the diagnostic for its decorator.
pub open spec fn shape_of(f: FieldSchemaView) -> Result<ShapeView, DiagnosticView> {
    match decorated(f) {
        Err(diagnostic) => Err(diagnostic),
        Ok(Some(pair)) => Ok(
            ShapeView::Repeated {
                element: inner_type("Vec"@, f.declared_type)->0,
                method_name: pair.0,
            },
        ),
        Ok(None) => match inner_type("Option"@, f.declared_type) {
            Some(inner) => Ok(ShapeView::Optional { inner }),
            None => Ok(ShapeView::Plain { ty: f.declared_type }),
        },
    }
}

/// Classifies a field.
///
/// A field with a decorator is repeated, whatever else its type may look
/// like; without one it is optional where its type is `Option` of one
/// type, and plain otherwise.
pub fn field_shape<'a>(f: &'a FieldSchema) -> (r: Result<FieldShape<'a>, Diagnostic>)
    requires
        supported(f@),
    ensures
        match r {
            Ok(shape) => shape_of(f@) == Ok::<ShapeView, DiagnosticView>(shape@),
            Err(diagnostic) => shape_of(f@) == Err::<ShapeView, DiagnosticView>(diagnostic@),
        },
{
    match extend_method(f) {
        Some(Err(diagnostic)) => Err(diagnostic),
        Some(Ok(pair)) => {
            let (_, appender) = pair;
            Ok(FieldShape::Repeated { element: appender.param, method_name: appender.name })
        },
        None => match ty_inner_type("Option", &f.declared_type) {
            Some(inner) => Ok(FieldShape::Optional { inner }),
            None => Ok(FieldShape::Plain { ty: &f.declared_type }),
        },
    }
}

/// The methods for a field of the given shape.
///
/// A plain or optional field gets a setter. A repeated field gets an
/// appender, and a setter for the whole sequence unless the appender has
/// the field's own name.
pub open spec fn planned(f: FieldSchemaView, shape: ShapeView) -> MethodPlanView {
    match shape {
        ShapeView::Plain { ty } => MethodPlanView {
            set_whole: Some(
                MethodView { name: f.name, field: f.name, param: ty, action: Action::Assign },
            ),
            append_one: None,
        },
        ShapeView::Optional { inner } => MethodPlanView {
            set_whole: Some(
                MethodView { name: f.name, field: f.name, param: inner, action: Action::Assign },
            ),
            append_one: None,
        },
        ShapeView::Repeated { element, method_name } => MethodPlanView {
            set_whole: if method_name == f.name {
                None
            } else {
                Some(
                    MethodView {
                        name: f.name,
                        field: f.name,
                        param: f.declared_type,
                        action: Action::Replace,
                    },
                )
            },
            append_one: Some(
                MethodView {
                    name: method_name,
                    field: f.name,
                    param: element,
                    action: Action::Append,
                },
            ),
        },
    }
}

fn setter<'a>(f: &'a FieldSchema, param: &'a TypeExpr, action: Action) -> (r: Method<'a>)
    ensures
        r@ == (MethodView { name: f@.name, field: f@.name, param: param@, action }),
{
    Method { name: f.name.clone(), field: f.name.clone(), param, action }
}

/// Plans the methods for a field of the given shape.
pub fn plan_methods<'a>(f: &'a FieldSchema, shape: &FieldShape<'a>) -> (r: MethodPlan<'a>)
    ensures
        r@ == planned(f@, shape@),
{
    match shape {
        FieldShape::Plain { ty } => MethodPlan {
            set_whole: Some(setter(f, ty, Action::Assign)),
            append_one: None,
        },
        FieldShape::Optional { inner } => MethodPlan {
            set_whole: Some(setter(f, inner, Action::Assign)),
            append_one: None,
        },
        FieldShape::Repeated { element, method_name } => {
            let appender = Method {
                name: method_name.clone(),
                field: f.name.clone(),
                param: element,
                action: Action::Append,
            };
            if *method_name == f.name {
                MethodPlan { set_whole: None, append_one: Some(appender) }
            } else {
                MethodPlan {
                    set_whole: Some(setter(f, &f.declared_type, Action::Replace)),
                    append_one: Some(appender),
                }
            }
        },
    }
}

} // verus!
