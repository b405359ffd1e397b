//! A symbol table that the linker assembles.
//!
//! Functions and statics are tagged at build time. For each of them the
//! emitter states a descriptor record, placed in a section of its own under
//! one shared prefix; the linker lays the records of all compilation units
//! side by side, and at run time the reader lists them from the two bounds of
//! that region.

pub mod address;
pub mod emitter;
pub mod linking;
pub mod symbol;
pub mod table;

pub use address::{Pointer, SymbolAddress};
pub use emitter::{accept_arguments, emit, export, Declaration, Emission, Entity, ExportError};
pub use symbol::RsymtabSymbol;
pub use table::{align_down, record_count, symbols, Section};
