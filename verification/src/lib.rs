//! UTF-16 array literals from string literals.
//!
//! The engine turns a string into a null-terminated array of UTF-16 code
//! units, optionally zero-padded to a chosen length, and renders the array
//! as tokens. Two invocation forms are accepted: `[<size>,] "<text>"`, and a
//! whole `const` or `static` declaration whose array type may leave the
//! length to be inferred.
//!
//! - [`utf16`] and [`array`] are the encoding core: encode, terminate,
//!   validate against an explicit size, pad.
//! - [`token`] and [`syntax`] are the ground the parsers stand on: what a
//!   token is, and what `syn` makes of it.
//! - [`literal`] parses the literal form and holds its entry points;
//!   [`declaration`] parses the declaration form, and [`rewrite`] emits the
//!   rewritten declaration and holds the entry points of that form.
//! - [`emit`] renders an array, and [`error`] holds the errors and the places
//!   they are attributed to.

pub mod array;
pub mod declaration;
pub mod emit;
pub mod error;
pub mod literal;
pub mod rewrite;
pub mod syntax;
pub mod token;
pub mod utf16;

pub use crate::error::{fragment_at, Expected, Position, WstrError};
pub use crate::literal::{wstr, wstr_impl};
pub use crate::rewrite::{wstr_literal, wstr_literal_impl};
