//! Declared types, and the one question asked of them: is this type a
//! given wrapper applied to exactly one type?

use vstd::prelude::*;

verus! {

/// The declared type of a field, kept as far as its shape matters.
#[derive(Debug, PartialEq, Eq)]
pub enum TypeExpr {
    /// A path such as `String`, `Vec<u8>` or `std::option::Option<T>`,
    /// with the qualified self in front of it where it has one, as in
    /// `<T as Trait>::Output`.
    Path { qself: Option<QualifiedSelf>, leading_colon: bool, segments: Vec<PathSegment> },
    /// Any other form of type (a reference, a tuple, an array, ...), as written.
    Other { text: String },
}

/// The qualified self of a path: the `T` of `<T as a::b>::c`.
#[derive(Debug, PartialEq, Eq)]
pub struct QualifiedSelf {
    /// The type between `<` and `as`, as written.
    pub ty: String,
    /// The number of segments of the path that stand before `>`.
    pub position: usize,
}

/// One segment of a path, with the arguments applied to it.
#[derive(Debug, PartialEq, Eq)]
pub struct PathSegment {
    pub ident: String,
    pub arguments: PathArguments,
}

/// What follows the identifier of a path segment.
#[derive(Debug, PartialEq, Eq)]
pub enum PathArguments {
    /// Nothing, as in `String`.
    Bare,
    /// Arguments in angle brackets, as in `Vec<T>`.
    AngleBracketed { args: Vec<GenericArgument> },
    /// Arguments in parentheses, as in `Fn(A) -> B`, as written.
    Parenthesized { text: String },
}

/// One argument between angle brackets.
#[derive(Debug, PartialEq, Eq)]
pub enum GenericArgument {
    /// A type.
    Type(TypeExpr),
    /// A lifetime, a constant, a binding or a constraint, as written.
    Other { text: String },
}

/// A type as a mathematical value.
pub enum TypeExprView {
    Path { qself: Option<QualifiedSelfView>, leading_colon: bool, segments: Seq<PathSegmentView> },
    Other { text: Seq<char> },
}

/// A qualified self as a mathematical value.
pub struct QualifiedSelfView {
    pub ty: Seq<char>,
    pub position: nat,
}

/// A path segment as a mathematical value.
pub struct PathSegmentView {
    pub ident: Seq<char>,
    pub arguments: PathArgumentsView,
}

/// The arguments of a path segment as a mathematical value.
pub enum PathArgumentsView {
    Bare,
    AngleBracketed { args: Seq<GenericArgumentView> },
    Parenthesized { text: Seq<char> },
}

/// An argument between angle brackets as a mathematical value.
pub enum GenericArgumentView {
    Type(TypeExprView),
    Other { text: Seq<char> },
}

/// The view of a type.
pub open spec fn type_view(ty: TypeExpr) -> TypeExprView
    decreases ty,
{
    match ty {
        TypeExpr::Path { qself, leading_colon, segments } => TypeExprView::Path {
            qself: match qself {
                Some(q) => Some(QualifiedSelfView { ty: q.ty@, position: q.position as nat }),
                None => None,
            },
            leading_colon,
            segments: Seq::new(
                segments@.len(),
                |i: int|
                    if 0 <= i < segments@.len() {
                        segment_view(segments@[i])
                    } else {
                        arbitrary()
                    },
            ),
        },
        TypeExpr::Other { text } => TypeExprView::Other { text: text@ },
    }
}

/// The view of a path segment.
pub open spec fn segment_view(segment: PathSegment) -> PathSegmentView
    decreases segment,
{
    PathSegmentView { ident: segment.ident@, arguments: arguments_view(segment.arguments) }
}

/// The view of the arguments of a path segment.
pub open spec fn arguments_view(arguments: PathArguments) -> PathArgumentsView
    decreases arguments,
{
    match arguments {
        PathArguments::Bare => PathArgumentsView::Bare,
        PathArguments::AngleBracketed { args } => PathArgumentsView::AngleBracketed {
            args: Seq::new(
                args@.len(),
                |i: int|
                    if 0 <= i < args@.len() {
                        argument_view(args@[i])
                    } else {
                        arbitrary()
                    },
            ),
        },
        PathArguments::Parenthesized { text } => PathArgumentsView::Parenthesized { text: text@ },
    }
}

/// The view of an argument between angle brackets.
pub open spec fn argument_view(argument: GenericArgument) -> GenericArgumentView
    decreases argument,
{
    match argument {
        GenericArgument::Type(ty) => GenericArgumentView::Type(type_view(ty)),
        GenericArgument::Other { text } => GenericArgumentView::Other { text: text@ },
    }
}

impl View for TypeExpr {
    type V = TypeExprView;

    open spec fn view(&self) -> TypeExprView {
        type_view(*self)
    }
}

impl View for PathSegment {
    type V = PathSegmentView;

    open spec fn view(&self) -> PathSegmentView {
        segment_view(*self)
    }
}

impl View for PathArguments {
    type V = PathArgumentsView;

    open spec fn view(&self) -> PathArgumentsView {
        arguments_view(*self)
    }
}

impl View for GenericArgument {
    type V = GenericArgumentView;

    open spec fn view(&self) -> GenericArgumentView {
        argument_view(*self)
    }
}

/// The type `T` where `ty` is a path of exactly one segment, named `wrapper`
/// and applied to the single type `T` in angle brackets; nothing otherwise.
/// What stands in front of the segment, a leading `::` or a qualified
/// self, is not looked at.
pub open spec fn inner_type(wrapper: Seq<char>, ty: TypeExprView) -> Option<TypeExprView> {
    match ty {
        TypeExprView::Path { qself, leading_colon, segments } => {
            if segments.len() == 1 && segments[0].ident == wrapper {
                match segments[0].arguments {
                    PathArgumentsView::AngleBracketed { args } => {
                        if args.len() == 1 {
                            match args[0] {
                                GenericArgumentView::Type(t) => Some(t),
                                GenericArgumentView::Other { text } => None,
                            }
                        } else {
                            None
                        }
                    },
                    PathArgumentsView::Bare => None,
                    PathArgumentsView::Parenthesized { text } => None,
                }
            } else {
                None
            }
        },
        TypeExprView::Other { text } => None,
    }
}

/// The argument of `ty` where it is `wrapper` applied to one type.
///
/// That `ty` has another shape is an ordinary outcome, not a failure.
pub fn ty_inner_type<'a>(wrapper: &str, ty: &'a TypeExpr) -> (r: Option<&'a TypeExpr>)
    ensures
        inner_type(wrapper@, ty@) == match r {
            Some(t) => Some(t@),
            None => None,
        },
{
    if let TypeExpr::Path { qself: _, leading_colon: _, segments } = ty {
        if segments.len() != 1 || segments[0].ident != wrapper.to_owned() {
            return None;
        }
        if let PathArguments::AngleBracketed { args } = &segments[0].arguments {
            if args.len() != 1 {
                return None;
            }
            if let GenericArgument::Type(t) = &args[0] {
                return Some(t);
            }
        }
    }
    None
}

impl TypeExpr {
    /// The type written as the one identifier `ident`.
    pub fn named(ident: &str) -> (r: TypeExpr)
        ensures
            r@ == (TypeExprView::Path {
                qself: None,
                leading_colon: false,
                segments: seq![
                    PathSegmentView { ident: ident@, arguments: PathArgumentsView::Bare },
                ],
            }),
    {
        let mut segments: Vec<PathSegment> = Vec::new();
        segments.push(PathSegment { ident: ident.to_owned(), arguments: PathArguments::Bare });
        let r = TypeExpr::Path { qself: None, leading_colon: false, segments };
        assert(r@->segments =~= seq![
            PathSegmentView { ident: ident@, arguments: PathArgumentsView::Bare },
        ]);
        r
    }

    /// The type written as `wrapper<argument>`.
    pub fn applied(wrapper: &str, argument: TypeExpr) -> (r: TypeExpr)
        ensures
            r@ == (TypeExprView::Path {
                qself: None,
                leading_colon: false,
                segments: seq![
                    PathSegmentView {
                        ident: wrapper@,
                        arguments: PathArgumentsView::AngleBracketed {
                            args: seq![GenericArgumentView::Type(argument@)],
                        },
                    },
                ],
            }),
            inner_type(wrapper@, r@) == Some(argument@),
    {
        let ghost inner = argument@;
        let mut args: Vec<GenericArgument> = Vec::new();
        args.push(GenericArgument::Type(argument));
        let arguments = PathArguments::AngleBracketed { args };
        assert(arguments@->args =~= seq![GenericArgumentView::Type(inner)]);
        let mut segments: Vec<PathSegment> = Vec::new();
        segments.push(PathSegment { ident: wrapper.to_owned(), arguments });
        let r = TypeExpr::Path { qself: None, leading_colon: false, segments };
        assert(r@->segments =~= seq![
            PathSegmentView {
                ident: wrapper@,
                arguments: PathArgumentsView::AngleBracketed {
                    args: seq![GenericArgumentView::Type(inner)],
                },
            },
        ]);
        r
    }
}

} // verus!
