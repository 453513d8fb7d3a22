//! GPIO addressing glue: offsets of the per-pin control and pad registers.
//!
//! Pin configuration itself is volatile register I/O and is not part of the
//! verified core; only the address arithmetic is, so it can be checked once
//! and reused by the unverified edge.

use vstd::prelude::*;

verus! {

/// Pad and I/O mux register banks.
pub const IO_BANK0_BASE: usize = 0x4002_8000;

pub const PADS_BANK0_BASE: usize = 0x4003_8000;

/// Single-cycle I/O block registers.
pub const SIO_BASE: usize = 0xd000_0000;

pub const SIO_GPIO_OE_SET: usize = SIO_BASE + 0x038;

pub const SIO_GPIO_OUT_SET: usize = SIO_BASE + 0x018;

pub const SIO_GPIO_OUT_CLR: usize = SIO_BASE + 0x020;

pub const SIO_GPIO_OUT_XOR: usize = SIO_BASE + 0x028;

/// Number of GPIO pins on the package.
pub const GPIO_PIN_COUNT: usize = 48;

/// GPIO control register offset within the I/O bank: one 8-byte record per
/// pin, control word second.
///
/// `pin`: the GPIO number.
pub fn gpio_ctrl_offset(pin: usize) -> (r: usize)
    requires
        pin < GPIO_PIN_COUNT,
    ensures
        r == 0x4 + pin * 0x8,
{
    0x4 + pin * 0x8
}

/// GPIO pad register offset within the pad bank: one 4-byte record per pin,
/// after the bank's leading voltage-select word.
///
/// `pin`: the GPIO number.
pub fn gpio_pad_offset(pin: usize) -> (r: usize)
    requires
        pin < GPIO_PIN_COUNT,
    ensures
        r == 0x4 + pin * 0x4,
{
    0x4 + pin * 0x4
}

} // verus!
