//! Firmware bring-up core for a dual-core, TrustZone-capable microcontroller.
//!
//! The verified core is the interrupt vector-table relocation and dispatch
//! mechanism together with the hardware spinlock pool it depends on. All
//! hardware registers the core touches are held as explicit, typed state
//! (`interrupts::Ppb`, `interrupts::VectorTable`, `spinlocks::SpinlockPool`,
//! `uart::Uart`), so every register transaction is an ordinary verified
//! function with a contract. The raw volatile accesses and barrier
//! instructions that drive the real memory-mapped registers are the
//! unverified edge and live outside this library.

use vstd::prelude::*;

pub mod gpio;
pub mod interrupts;
pub mod spinlocks;
pub mod uart;

verus! {

/// Marker for type-level validated indices: only types that stand for an
/// index in a closed, compile-time-enumerable valid set implement it.
pub trait Valid {

}

/// Offset aliases for the atomic register-access convention: a write to
/// `addr + ATOMIC_SET` ORs the value in, `addr + ATOMIC_CLEAR` ANDs it out,
/// `addr + ATOMIC_XOR` toggles it.
pub const ATOMIC_XOR: usize = 0x1000;

pub const ATOMIC_SET: usize = 0x2000;

pub const ATOMIC_CLEAR: usize = 0x3000;

/// Reset-controller register addresses.
pub const RESETS_BASE: usize = 0x4002_0000;

pub const RESETS_RESET: usize = RESETS_BASE;

pub const RESETS_RESET_DONE: usize = RESETS_BASE + 0x8;

/// 32-bit value with a single bit set high.
///
/// `n`: bit offset to set high.
pub fn bit(n: usize) -> (r: usize)
    requires
        n < 32,
    ensures
        r == (1u32 << n) as usize,
        r > 0,
{
    proof {
        assert((1u32 << n) > 0) by (bit_vector)
            requires
                n < 32,
        ;
    }
    (1u32 << n) as usize
}

} // verus!
