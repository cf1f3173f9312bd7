//! Best-effort recovery of Unicode text from byte buffers of unknown,
//! frequently mislabeled legacy encodings, plus the small data model for
//! spell classification that consumes such decoded strings.

pub mod magic;
pub mod strings;
