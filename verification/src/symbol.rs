//! The descriptor record.

use vstd::prelude::*;

use crate::address::SymbolAddress;

verus! {

/// An exported symbol: one record of the table.
#[derive(Debug)]
pub struct RsymtabSymbol {
    /// The name of the symbol, as it was declared.
    pub name: &'static str,
    /// The address of the symbol.
    pub address: SymbolAddress,
}

} // verus!
