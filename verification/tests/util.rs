use mewkernel::util::{Access, SetBits};

#[test]
fn set_bits_replaces_only_the_field() {
    assert_eq!(0u32.set_bits(4, 2, 0b11), 0b11_0000);
    assert_eq!(0xFFFF_FFFFu32.set_bits(4, 2, 0), 0xFFFF_FFCF);
    assert_eq!(0xFFFF_FFFFu32.set_bits(4, 2, 0b01), 0xFFFF_FFDF);
    assert_eq!(0x1234_5678u32.set_bits(8, 4, 0xA), 0x1234_5A78);
}

#[test]
fn set_bits_cuts_the_value_to_the_field() {
    assert_eq!(0u32.set_bits(0, 1, 0xFF), 1);
    assert_eq!(0u32.set_bits(30, 2, 0b111), 0xC000_0000);
    assert_eq!(0xABCDu32.set_bits(3, 0, 0xFFFF), 0xABCD);
    assert_eq!(0u32.set_bits(31, 1, 1), 0x8000_0000);
}

#[test]
fn store_ignores_the_loaded_word() {
    let access = Access::Store { address: 0x10, value: 42 };
    assert_eq!(access.address(), 0x10);
    assert!(!access.loads());
    assert_eq!(access.stored(0), 42);
    assert_eq!(access.stored(0xFFFF_FFFF), 42);
}

#[test]
fn field_access_updates_the_loaded_word() {
    let access = Access::SetField { address: 0x20, offset: 12, len: 2, value: 2 };
    assert_eq!(access.address(), 0x20);
    assert!(access.loads());
    assert_eq!(access.stored(0xFFFF_FFFF), 0xFFFF_EFFF);
    assert_eq!(access.stored(0), 0x2000);
}

#[test]
fn merge_clears_then_sets() {
    let access = Access::Merge { address: 0x30, clear: 0xF0, set: 0x21 };
    assert_eq!(access.address(), 0x30);
    assert!(access.loads());
    assert_eq!(access.stored(0xFFFF), 0xFF2F);
    assert_eq!(access.stored(0), 0x21);
}
