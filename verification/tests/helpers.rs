use pico_os::gpio::{gpio_ctrl_offset, gpio_pad_offset};
use pico_os::{bit, ATOMIC_CLEAR, ATOMIC_SET, ATOMIC_XOR, RESETS_RESET, RESETS_RESET_DONE};

#[test]
fn test_bit_macro() {
    assert_eq!(bit(3), 0b1000);
    assert_eq!(bit(0), 1);
    assert_eq!(bit(3), 0b1000);
    assert_eq!(bit(31), 0x8000_0000);
    assert_ne!(bit(7), 0x0001);
    assert_ne!(bit(2), 10000);
}

#[test]
fn test_gpio_offsets() {
    assert_eq!(gpio_ctrl_offset(0), 0x4);
    assert_eq!(gpio_ctrl_offset(1), 0xc);
    assert_eq!(gpio_ctrl_offset(25), 0x4 + 25 * 8);
    assert_eq!(gpio_pad_offset(0), 0x4);
    assert_eq!(gpio_pad_offset(1), 0x8);
    assert_eq!(gpio_pad_offset(47), 0x4 + 47 * 4);
}

#[test]
fn test_atomic_alias_offsets() {
    assert_eq!(ATOMIC_XOR, 0x1000);
    assert_eq!(ATOMIC_SET, 0x2000);
    assert_eq!(ATOMIC_CLEAR, 0x3000);
    assert_eq!(RESETS_RESET_DONE - RESETS_RESET, 8);
}
