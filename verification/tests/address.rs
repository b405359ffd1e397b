use rsymtab::{Pointer, SymbolAddress};

#[test]
fn address_keeps_what_it_was_made_from() {
    let address = SymbolAddress::_from_reference(0x1000);
    assert_eq!(address.as_usize(), 0x1000);
}

#[test]
fn pointers_hold_the_same_address() {
    let address = SymbolAddress::_from_reference(0x7ffe_1040);
    assert_eq!(address.as_ptr(), Pointer { address: 0x7ffe_1040, mutable: false });
    assert_eq!(address.as_mut_ptr(), Pointer { address: 0x7ffe_1040, mutable: true });
    assert_eq!(address.as_ptr().address, address.as_usize());
    assert_eq!(address.as_mut_ptr().address, address.as_usize());
}

#[test]
fn const_and_mutable_pointer_differ_only_in_mutability() {
    let address = SymbolAddress::_from_reference(8);
    assert_ne!(address.as_ptr(), address.as_mut_ptr());
    assert!(!address.as_ptr().mutable);
    assert!(address.as_mut_ptr().mutable);
}

#[test]
fn address_is_shown_in_hexadecimal() {
    assert_eq!(SymbolAddress::_from_reference(0x1000).to_string(), "0x1000");
    assert_eq!(SymbolAddress::_from_reference(0xdead_beef).to_string(), "0xdeadbeef");
    assert_eq!(SymbolAddress::_from_reference(255).to_string(), "0xff");
}

#[test]
fn small_addresses_have_one_digit() {
    assert_eq!(SymbolAddress::_from_reference(1).to_string(), "0x1");
    assert_eq!(SymbolAddress::_from_reference(9).to_string(), "0x9");
    assert_eq!(SymbolAddress::_from_reference(10).to_string(), "0xa");
    assert_eq!(SymbolAddress::_from_reference(15).to_string(), "0xf");
    assert_eq!(SymbolAddress::_from_reference(16).to_string(), "0x10");
}

#[test]
fn largest_address_is_shown_as_the_formatter_shows_it() {
    let address = SymbolAddress::_from_reference(usize::MAX);
    assert_eq!(address.to_string(), format!("0x{:x}", usize::MAX));
    assert_eq!(address.as_usize(), usize::MAX);
}

#[test]
fn hexadecimal_agrees_with_the_formatter() {
    let mut value: usize = 1;
    while value < usize::MAX / 7 {
        let address = SymbolAddress::_from_reference(value);
        assert_eq!(address.to_string(), format!("0x{:x}", value));
        value = value * 7 + 3;
    }
}
