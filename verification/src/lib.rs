//! Accessor generation for structs and enums.
//!
//! Given the description of a type declaration and the flags attached to it,
//! to its variants and to its fields, this crate works out which accessors
//! each field gets, names them, and renders them as the text of an `impl`
//! block. Every function is verified against a specification over plain
//! sequences of characters.

pub mod accessor;
pub mod config;
pub mod declaration;
pub mod error;
pub mod expand;
pub mod laws;
pub mod ordinal;
pub mod plan;
pub mod render;
pub mod text;
