//! A programmatic assembler for a binary module format made of ordered,
//! indexed sections.
//!
//! A module is an ordered list of sections; the assembler tracks four of the
//! section kinds — type signatures, function declarations, imports and
//! compiled code bodies — in a mutable scaffold, keeps the numeric index
//! relationships between them as entries are appended, and reassembles the
//! scaffold into a single ordered section list.

pub mod builder;
pub mod code;
pub mod elements;
pub mod import;
pub mod invoke;
pub mod scaffold;
