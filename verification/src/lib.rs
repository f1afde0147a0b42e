//! Read-only inspection of ELF object files.
//!
//! Given the bytes of an object file, this library hands out its file header,
//! section and program header tables, symbol tables, dynamic section,
//! relocation records, notes and GNU symbol versions as plain values, and lays
//! them out as rows of text.
//!
//! The bytes are decoded by the `elf` crate. The calls into it are gathered in
//! [`outside`]; everything else is verified against the contracts stated
//! there. What the decoder passes over in silence is checked here, on the
//! bytes, before it is called: a header table that the file does not hold, a
//! table that ends in a part of a record, a note that the end of its section
//! cuts off, a version chain that leaves its section. And what it hands out
//! packed is held against the bytes afterwards: the binding, type and
//! visibility of a symbol, the symbol index and type of a relocation.
//! Nothing is written, and no call keeps state: every function takes the
//! bytes and returns values that own their data.

pub mod chains;
pub mod dynamic;
pub mod error;
pub mod fields;
pub mod header;
pub mod invariants;
pub mod model;
pub mod notes;
pub mod outside;
pub mod relocs;
pub mod report;
pub mod sections;
pub mod strtab;
pub mod symbols;
pub mod text;
pub mod versions;
