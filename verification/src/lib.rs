//! Spanish verb conjugations, looked up in tables that are stored one verb to
//! a file.
//!
//! A verb has four scalar fields and one table per tense. A query names a
//! field, or a tense with or without a pronoun; the answer is the text that
//! is printed for it. The library decides and formats; it reads no file and
//! prints nothing.

pub mod conjugation;
pub mod loader;
pub mod pronoun;
pub mod query;
pub mod selection;
pub mod tense;
pub mod text;
pub mod verb;
