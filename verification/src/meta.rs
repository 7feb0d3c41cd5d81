//! The structure of an attribute's content.
//!
//! The `syn` crate reads the text. What it reports becomes a plain tree
//! here, on which the rest of the library decides. What `syn` makes of a
//! given text is not described: it is named, by `syn_meta_list`,
//! `syn_name_value` and `syn_string`.
//!
//! `syn` reads nested brackets by recursion, and so it is asked only
//! about a text whose brackets cannot nest deeper than `MAX_BRACKETS`.
//! Such a text it reads to the end, whatever the text holds: its lexer,
//! that of `proc-macro2`, hands it no token that it does not know.
//!
//! All of this holds while the feature `proc-macro` of `proc-macro2` is
//! off, as this crate has it. With the feature on, and inside the
//! expansion of a macro, `proc-macro2` hands the text to the lexer of the
//! compiler instead: what `syn` makes of a text would then depend on the
//! compiler, and that lexer may pass a literal on which `syn` panics.

use quote::ToTokens;
use vstd::prelude::*;
use vstd::string::StringSliceAdditionalSpecFns;
use vstd::utf8::encode_utf8;

verus! {

/// The value of a name-value pair.
#[derive(Debug, PartialEq, Eq)]
pub enum Literal {
    /// A string literal, with the text it denotes.
    Str { value: String },
    /// A literal of any other kind.
    Other,
}

/// A literal as a mathematical value.
pub enum LiteralView {
    Str { value: Seq<char> },
    Other,
}

impl View for Literal {
    type V = LiteralView;

    open spec fn view(&self) -> LiteralView {
        match self {
            Literal::Str { value } => LiteralView::Str { value: value@ },
            Literal::Other => LiteralView::Other,
        }
    }
}

/// One argument of a list such as `derive(Copy, Clone)`.
#[derive(Debug, PartialEq, Eq)]
pub enum Argument {
    /// A pair such as `each = "arg"`: the name as written, and the value.
    NameValue { name: String, value: Literal },
    /// An argument of any other form.
    Other,
}

/// An argument as a mathematical value.
pub enum ArgumentView {
    NameValue { name: Seq<char>, value: LiteralView },
    Other,
}

impl View for Argument {
    type V = ArgumentView;

    open spec fn view(&self) -> ArgumentView {
        match self {
            Argument::NameValue { name, value } => ArgumentView::NameValue {
                name: name@,
                value: value@,
            },
            Argument::Other => ArgumentView::Other,
        }
    }
}

impl DeepView for Argument {
    type V = ArgumentView;

    open spec fn deep_view(&self) -> ArgumentView {
        self@
    }
}

/// The content of an attribute.
#[derive(Debug, PartialEq, Eq)]
pub enum Meta {
    /// A path followed by a parenthesised list of arguments.
    List { arguments: Vec<Argument> },
    /// A bare path, or a path with `= value`.
    Other,
}

/// The content of an attribute as a mathematical value.
pub enum MetaView {
    List { arguments: Seq<ArgumentView> },
    Other,
}

impl View for Meta {
    type V = MetaView;

    open spec fn view(&self) -> MetaView {
        match self {
            Meta::List { arguments } => MetaView::List { arguments: arguments.deep_view() },
            Meta::Other => MetaView::Other,
        }
    }
}

/// The most opening brackets that a text may hold for `syn` to be asked
/// about it.
///
/// `syn` takes a few KiB of stack for every level of nesting, so that
/// 256 levels stay well within the 2 MiB of a thread's stack, where some
/// thousand levels do not.
pub const MAX_BRACKETS: usize = 256;

/// The byte is `(`, `[` or `{`, which are 40, 91 and 123.
pub open spec fn opens(byte: u8) -> bool {
    byte == 40 || byte == 91 || byte == 123
}

/// The number of opening brackets among the bytes.
pub open spec fn brackets(bytes: Seq<u8>) -> nat
    decreases bytes.len(),
{
    if bytes.len() == 0 {
        0
    } else {
        brackets(bytes.drop_last()) + if opens(bytes.last()) {
            1nat
        } else {
            0nat
        }
    }
}

/// The text holds at most `MAX_BRACKETS` opening brackets. The count is
/// taken without reading the text as tokens: it takes in the brackets
/// inside literals and those that stand side by side, and so it bounds
/// from above how deep the tokens of the text nest.
pub open spec fn shallow(text: Seq<char>) -> bool {
    brackets(encode_utf8(text)) <= MAX_BRACKETS
}

/// A part of the bytes holds no more opening brackets than all of them.
proof fn lemma_brackets_grow(bytes: Seq<u8>, n: int)
    requires
        0 <= n <= bytes.len(),
    ensures
        brackets(bytes.take(n)) <= brackets(bytes),
    decreases bytes.len() - n,
{
    if n < bytes.len() {
        assert(bytes.take(n + 1).drop_last() == bytes.take(n));
        lemma_brackets_grow(bytes, n + 1);
    } else {
        assert(bytes.take(n) == bytes);
    }
}

/// Whether a text is shallow.
pub fn is_shallow(text: &str) -> (r: bool)
    ensures
        r == shallow(text@),
{
    let bytes = text.as_bytes();
    let mut count: usize = 0;
    let mut i: usize = 0;
    while i < bytes.len()
        invariant
            i <= bytes.len(),
            bytes@ == encode_utf8(text@),
            count == brackets(bytes@.take(i as int)),
            count <= MAX_BRACKETS,
        decreases bytes.len() - i,
    {
        let byte = bytes[i];
        proof {
            assert(bytes@.take(i + 1).drop_last() == bytes@.take(i as int));
        }
        let opening = byte == 40 || byte == 91 || byte == 123;
        if opening {
            if count == MAX_BRACKETS {
                proof {
                    lemma_brackets_grow(bytes@, i + 1);
                }
                return false;
            }
            count = count + 1;
        }
        i = i + 1;
    }
    assert(bytes@.take(i as int) == bytes@);
    true
}

/// What `syn` makes of `text` read as an attribute's content: the message
/// of its error; or nothing for a bare path and for a path with a value;
/// or, for a list, the text of each argument in order.
pub uninterp spec fn syn_meta_list(text: Seq<char>) -> Result<Option<Seq<Seq<char>>>, Seq<char>>;

/// What `syn` makes of `text` read as a name-value pair: the name and the
/// value as written, or nothing where `text` is no such pair.
pub uninterp spec fn syn_name_value(text: Seq<char>) -> Option<(Seq<char>, Seq<char>)>;

/// What `syn` makes of `text` read as a string literal: the text that the
/// literal denotes, or nothing where `text` is no string literal.
pub uninterp spec fn syn_string(text: Seq<char>) -> Option<Seq<char>>;

/// Has `syn::parse_str::<syn::Meta>` read `text`.
///
/// An error comes back as its message, a list as the tokens of each of
/// its arguments, printed by `quote::ToTokens::to_token_stream`.
///
/// Not proved: that the outcome is `syn_meta_list` of the text, which is
/// to say that it depends on the text and on nothing else. The text must
/// be shallow: on deeply nested brackets `syn` may use up the stack.
#[verifier::external_body]
fn meta_list(text: &str) -> (r: Result<Option<Vec<String>>, String>)
    requires
        shallow(text@),
    ensures
        syn_meta_list(text@) == match r {
            Ok(Some(items)) => Ok(Some(items.deep_view())),
            Ok(None) => Ok(None),
            Err(message) => Err(message@),
        },
{
    match syn::parse_str::<syn::Meta>(text) {
        Ok(syn::Meta::List(list)) => Ok(Some(
            list.nested.iter().map(|n| n.to_token_stream().to_string()).collect(),
        )),
        Ok(syn::Meta::Path(_)) => Ok(None),
        Ok(syn::Meta::NameValue(_)) => Ok(None),
        Err(e) => Err(e.to_string()),
    }
}

/// Has `syn::parse_str::<syn::MetaNameValue>` read `text`.
///
/// A pair comes back as the tokens of its path and of its literal, printed
/// by `quote::ToTokens::to_token_stream`.
///
/// Not proved: that the outcome is `syn_name_value` of the text, which is
/// to say that it depends on the text and on nothing else. The text must
/// be shallow: on deeply nested brackets `syn` may use up the stack.
#[verifier::external_body]
fn name_value(text: &str) -> (r: Option<(String, String)>)
    requires
        shallow(text@),
    ensures
        syn_name_value(text@) == match r {
            Some(pair) => Some((pair.0@, pair.1@)),
            None => None,
        },
{
    match syn::parse_str::<syn::MetaNameValue>(text) {
        Ok(pair) => Some(
            (pair.path.to_token_stream().to_string(), pair.lit.to_token_stream().to_string()),
        ),
        Err(_) => None,
    }
}

/// Has `syn::parse_str::<syn::LitStr>` read `text`, and `syn::LitStr::value`
/// say what the literal denotes.
///
/// Not proved: that the outcome is `syn_string` of the text, which is to
/// say that it depends on the text and on nothing else. The text must be
/// shallow: on deeply nested brackets `syn` may use up the stack.
#[verifier::external_body]
fn string_literal(text: &str) -> (r: Option<String>)
    requires
        shallow(text@),
    ensures
        syn_string(text@) == match r {
            Some(value) => Some(value@),
            None => None,
        },
{
    match syn::parse_str::<syn::LitStr>(text) {
        Ok(literal) => Some(literal.value()),
        Err(_) => None,
    }
}

/// The literal that `text` is, if `syn` can be asked about it.
pub open spec fn literal_of(text: Seq<char>) -> Option<LiteralView> {
    if !shallow(text) {
        None
    } else {
        match syn_string(text) {
            Some(value) => Some(LiteralView::Str { value }),
            None => Some(LiteralView::Other),
        }
    }
}

/// The argument that `text` is, if `syn` can be asked about it and about
/// the value in it.
pub open spec fn argument_of(text: Seq<char>) -> Option<ArgumentView> {
    if !shallow(text) {
        None
    } else {
        match syn_name_value(text) {
            Some(pair) => match literal_of(pair.1) {
                Some(value) => Some(ArgumentView::NameValue { name: pair.0, value }),
                None => None,
            },
            None => Some(ArgumentView::Other),
        }
    }
}

/// `syn` can be asked about each of the texts.
pub open spec fn arguments_readable(items: Seq<Seq<char>>) -> bool {
    forall|i: int| 0 <= i < items.len() ==> argument_of(#[trigger] items[i]) is Some
}

/// The structure of the attribute content `text`, or the message with
/// which `syn` refuses it; nothing if `syn` cannot be asked about the text
/// or about a part of it.
pub open spec fn meta_of(text: Seq<char>) -> Option<Result<MetaView, Seq<char>>> {
    if !shallow(text) {
        None
    } else {
        match syn_meta_list(text) {
            Ok(Some(items)) => if arguments_readable(items) {
                Some(
                    Ok(
                        MetaView::List {
                            arguments: Seq::new(items.len(), |i: int| argument_of(items[i])->0),
                        },
                    ),
                )
            } else {
                None
            },
            Ok(None) => Some(Ok(MetaView::Other)),
            Err(message) => Some(Err(message)),
        }
    }
}

fn parse_literal(text: &str) -> (r: Option<Literal>)
    ensures
        literal_of(text@) == match r {
            Some(literal) => Some(literal@),
            None => None,
        },
{
    if !is_shallow(text) {
        return None;
    }
    match string_literal(text) {
        Some(value) => Some(Literal::Str { value }),
        None => Some(Literal::Other),
    }
}

fn parse_argument(text: &str) -> (r: Option<Argument>)
    ensures
        argument_of(text@) == match r {
            Some(argument) => Some(argument@),
            None => None,
        },
{
    if !is_shallow(text) {
        return None;
    }
    match name_value(text) {
        Some(pair) => {
            let (name, value) = pair;
            match parse_literal(value.as_str()) {
                Some(value) => Some(Argument::NameValue { name, value }),
                None => None,
            }
        },
        None => Some(Argument::Other),
    }
}

/// Reads the content of an attribute.
///
/// Nothing comes back for a text that `syn` is not asked about: one that
/// holds more than `MAX_BRACKETS` opening brackets, or that has an
/// argument or a value that does.
pub fn parse_meta(text: &str) -> (r: Option<Result<Meta, String>>)
    ensures
        meta_of(text@) == match r {
            Some(Ok(meta)) => Some(Ok(meta@)),
            Some(Err(message)) => Some(Err(message@)),
            None => None,
        },
{
    if !is_shallow(text) {
        return None;
    }
    match meta_list(text) {
        Ok(Some(items)) => {
            let mut arguments: Vec<Argument> = Vec::new();
            let mut i: usize = 0;
            while i < items.len()
                invariant
                    i <= items.len(),
                    shallow(text@),
                    syn_meta_list(text@) == Ok::<Option<Seq<Seq<char>>>, Seq<char>>(
                        Some(items.deep_view()),
                    ),
                    arguments.len() == i,
                    forall|j: int|
                        0 <= j < i ==> argument_of(items[j]@) == Some((#[trigger] arguments[j])@),
                decreases items.len() - i,
            {
                match parse_argument(items[i].as_str()) {
                    Some(argument) => {
                        arguments.push(argument);
                    },
                    None => {
                        proof {
                            let texts = items.deep_view();
                            assert(argument_of(texts[i as int]) is None);
                        }
                        return None;
                    },
                }
                i = i + 1;
            }
            let meta = Meta::List { arguments };
            proof {
                let texts = items.deep_view();
                assert forall|j: int| 0 <= j < texts.len() implies argument_of(
                    #[trigger] texts[j],
                ) is Some by {
                    assert(argument_of(items[j]@) == Some(arguments[j]@));
                }
                let expected = Seq::new(texts.len(), |j: int| argument_of(texts[j])->0);
                assert(meta@->arguments =~= expected);
            }
            Some(Ok(meta))
        },
        Ok(None) => Some(Ok(Meta::Other)),
        Err(message) => Some(Err(message)),
    }
}

} // verus!
