//! Delegation by code generation.
//!
//! A trait marked as inheritable gets a hidden linkage trait and a blanket
//! implementation whose methods forward to a parent; a struct whose field is
//! marked as inheriting that trait gets an implementation of the linkage
//! trait that names the field as the parent. Both generators are functions
//! from the text of one declaration to the text that replaces or
//! accompanies it, and say of every declaration they turn down why and
//! where.
//!
//! - `annotator`: the trait annotator, `inheritable`.
//! - `linker`: the struct linker, `derive_Inheritance`.
//! - `naming`: the names on which the two agree.
//! - `protocol`: what holds of the generated code, as laws.
//! - `declaration`, `structure`: declarations held as plain values.
//! - `trait_reader`, `struct_reader`: from the parser's trees to those.
//! - `syntax`, `trait_syntax`, `struct_syntax`: the calls into the parser,
//!   which are trusted and not proved.
//! - `literals`: which texts can be handed to the parser.
//! - `diagnostic`: rejections and their messages.
//! - `text`: numerals and other small pieces of text.

pub mod annotator;
pub mod declaration;
pub mod diagnostic;
pub mod linker;
pub mod literals;
pub mod naming;
pub mod protocol;
pub mod struct_reader;
pub mod struct_syntax;
pub mod structure;
pub mod syntax;
pub mod text;
pub mod trait_reader;
pub mod trait_syntax;

pub use crate::annotator::{inheritable, inheritable_specialized};
pub use crate::diagnostic::{Diagnostic, Rejection};
pub use crate::linker::{delegating_struct, derive_Inheritance};
