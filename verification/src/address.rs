//! The address of a tagged entity.

use vstd::prelude::*;
use vstd::string::*;

verus! {

/// A pointer as a plain value: where it points, and whether it may be written
/// through.
#[derive(Debug, Clone, Copy, PartialEq, Eq, Structural)]
pub struct Pointer {
    /// The address that the pointer holds.
    pub address: usize,
    /// Whether the pointer is a mutable one.
    pub mutable: bool,
}

/// The digits of hexadecimal notation, in the order of their values.
pub open spec fn hex_alphabet() -> Seq<char> {
    "0123456789abcdef"@
}

/// `value` in hexadecimal notation: lower case, no leading zero, and `0` for
/// zero.
pub open spec fn hex_digits(value: nat) -> Seq<char>
    decreases value,
{
    if value < 16 {
        seq![hex_alphabet()[value as int]]
    } else {
        hex_digits(value / 16).push(hex_alphabet()[(value % 16) as int])
    }
}

/// `value` as an address is written: `0x` and its hexadecimal digits.
pub open spec fn hex_text(value: nat) -> Seq<char> {
    "0x"@ + hex_digits(value)
}

/// Writes `value` in hexadecimal notation behind `prefix`.
fn write_hex(prefix: String, value: usize) -> (text: String)
    ensures
        text@ == prefix@ + hex_digits(value as nat),
    decreases value,
{
    let alphabet = "0123456789abcdef";
    proof {
        reveal_strlit("0123456789abcdef");
    }
    let digit: usize = value % 16;
    let mut text = if value < 16 {
        prefix
    } else {
        write_hex(prefix, value / 16)
    };
    let ghost before = text@;
    text.append(alphabet.substring_ascii(digit, digit + 1));
    proof {
        assert(alphabet@.subrange(digit as int, digit + 1) =~= seq![alphabet@[digit as int]]);
        assert(text@ =~= before.push(alphabet@[digit as int]));
        if value >= 16 {
            assert(prefix@ + hex_digits(value as nat / 16).push(alphabet@[digit as int])
                =~= (prefix@ + hex_digits(value as nat / 16)).push(alphabet@[digit as int]));
        }
    }
    text
}

/// The address of an exported symbol.
///
/// It stands for a reference to the entity, so it is never null, and the only
/// way to one is [`SymbolAddress::_from_reference`].
#[derive(Debug)]
pub struct SymbolAddress {
    address: usize,
}

impl View for SymbolAddress {
    type V = usize;

    closed spec fn view(&self) -> usize {
        self.address
    }
}

impl SymbolAddress {
    #[verifier::type_invariant]
    spec fn non_null(self) -> bool {
        self.address != 0
    }

    /// Wraps the address of a reference to the entity.
    ///
    /// `reference` is where a live reference points, which is never null.
    pub fn _from_reference(reference: usize) -> (address: Self)
        requires
            reference != 0,
        ensures
            address@ == reference,
    {
        SymbolAddress { address: reference }
    }

    /// A pointer to the symbol.
    pub fn as_ptr(&self) -> (pointer: Pointer)
        ensures
            pointer == (Pointer { address: self@, mutable: false }),
            pointer.address != 0,
    {
        proof {
            use_type_invariant(self);
        }
        Pointer { address: self.address, mutable: false }
    }

    /// A mutable pointer to the symbol.
    pub fn as_mut_ptr(&self) -> (pointer: Pointer)
        ensures
            pointer == (Pointer { address: self@, mutable: true }),
            pointer.address != 0,
    {
        proof {
            use_type_invariant(self);
        }
        Pointer { address: self.address, mutable: true }
    }

    /// The address of the symbol as a `usize`.
    pub fn as_usize(&self) -> (address: usize)
        ensures
            address == self@,
            address != 0,
    {
        proof {
            use_type_invariant(self);
        }
        self.address
    }

    /// The address as it is shown to a reader: in hexadecimal notation, as
    /// in `0x7ffe10`.
    pub fn to_string(&self) -> (text: String)
        ensures
            text@ == hex_text(self@ as nat),
    {
        write_hex(String::from_str("0x"), self.address)
    }
}

} // verus!
