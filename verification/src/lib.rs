//! A generator of builders.
//!
//! From the name of a record and its ordered, typed fields,
//! [`assemble::derive`] lays out a companion builder: one storage slot per
//! field, a setter or an appender for every field, the constructor of the
//! empty builder, and the routine that assembles the record and fails if
//! a required field was never set. The builder comes out as data, to be
//! rendered as code elsewhere.
//!
//! A field of type `Option<T>` may stay unset. A field of type `Vec<T>`
//! with the decorator `#[builder(each = "name")]` starts out empty and
//! gets a method `name` that appends one element. A decorator of another
//! shape ends the generation with a [`decorator::Diagnostic`].
//!
//! What the rendered builder does is laid down in [`semantics`]:
//! [`semantics::Builder`] is a generated builder at work, with texts as
//! values. [`laws`] states what holds of every run of every builder.

pub mod assemble;
pub mod decorator;
pub mod find;
pub mod laws;
pub mod meta;
pub mod plan;
pub mod schema;
pub mod semantics;
pub mod type_shape;
