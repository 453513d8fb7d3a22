//! Interrupt vector-table relocation and dispatch.
//!
//! The vector table is 96 contiguous 32-bit words. Entries `[0, 16)` are the
//! reserved exception vectors; entries `[16, 68)` map one-to-one, in table
//! order, onto the 52 interrupt ordinals of the closed `Interrupt`
//! enumeration. `VectorTable` owns the RAM-resident copy of the table
//! together with the immutable boot image it is bootstrapped from; `Ppb`
//! holds the private-peripheral-bus registers the relocation mechanism
//! touches: the processor status word that decides the secure or non-secure
//! aperture, the table-base register of each aperture, and the
//! interrupt-controller enable bank.

use vstd::prelude::*;
use crate::spinlocks::{Spinlock, SpinlockPool};

verus! {

/// Lock line reserved by convention for guarding vector-table mutation.
pub const VECTOR_TABLE_LOCK: usize = 0;

/// Base address of the boot image in flash.
pub const FLASH_BASE: usize = 0x1000_0000;

/// Base address of each 128 KiB-aligned private-peripheral-bus aperture.
pub const PPB_BASE_SECURE: usize = 0xe000_0000;

pub const PPB_BASE_NON_SECURE: usize = 0xe002_0000;

/// Offset of the vector-table-base register within either aperture.
pub const VTOR_OFFSET: usize = 0xed08;

/// Index of the first interrupt entry in the vector table.
pub const VTABLE_FIRST_IRQ: usize = 16;

/// Offset of the first interrupt-enable register within the secure aperture.
pub const NVIC_ISER0: usize = 0xe100;

/// Total number of vector-table entries.
pub const VECTOR_TABLE_ENTRIES: usize = 96;

/// Number of interrupt ordinals (46 real peripheral interrupts and 6
/// permanently unused spares).
pub const INTERRUPT_COUNT: usize = 52;

/// Number of 32-bit interrupt-enable registers, one per 32 ordinals.
pub const NVIC_ISER_COUNT: usize = 2;

/// The closed enumeration of interrupt sources, in vector-table order.
#[allow(non_camel_case_types)]
#[derive(Debug, Copy, Clone, PartialEq, Eq, Structural)]
pub enum Interrupt {
    TIMER0_IRQ_0,
    TIMER0_IRQ_1,
    TIMER0_IRQ_2,
    TIMER0_IRQ_3,
    TIMER1_IRQ_0,
    TIMER1_IRQ_1,
    TIMER1_IRQ_2,
    TIMER1_IRQ_3,
    PWM_IRQ_WRAP_0,
    PWM_IRQ_WRAP_1,
    DMA_IRQ_0,
    DMA_IRQ_1,
    DMA_IRQ_2,
    DMA_IRQ_3,
    USBCTRL_IRQ,
    PIO0_IRQ_0,
    PIO0_IRQ_1,
    PIO1_IRQ_0,
    PIO1_IRQ_1,
    PIO2_IRQ_0,
    PIO2_IRQ_1,
    IO_IRQ_BANK0,
    IO_IRQ_BANK0_NS,
    IO_IRQ_QSPI,
    IO_IRQ_QSPI_NS,
    SIO_IRQ_FIFO,
    SIO_IRQ_BELL,
    SIO_IRQ_FIFO_NS,
    SIO_IRQ_BELL_NS,
    SIO_IRQ_MTIMECMP,
    CLOCKS_IRQ,
    SPI0_IRQ,
    SPI1_IRQ,
    UART0_IRQ,
    UART1_IRQ,
    ADC_IRQ_FIFO,
    I2C0_IRQ,
    I2C1_IRQ,
    OTP_IRQ,
    TRNG_IRQ,
    PROC0_IRQ_CTI,
    PROC1_IRQ_CTI,
    PLL_SYS_IRQ,
    PLL_USB_IRQ,
    POWMAN_IRQ_POW,
    POWMAN_IRQ_TIMER,
    SPAREIRQ_IRQ_0,
    SPAREIRQ_IRQ_1,
    SPAREIRQ_IRQ_2,
    SPAREIRQ_IRQ_3,
    SPAREIRQ_IRQ_4,
    SPAREIRQ_IRQ_5,
}

/// The ordinal of each interrupt source: its zero-based position within the
/// interrupt region of the vector table.
pub open spec fn spec_interrupt_num(irq: Interrupt) -> int {
    match irq {
        Interrupt::TIMER0_IRQ_0 => 0,
        Interrupt::TIMER0_IRQ_1 => 1,
        Interrupt::TIMER0_IRQ_2 => 2,
        Interrupt::TIMER0_IRQ_3 => 3,
        Interrupt::TIMER1_IRQ_0 => 4,
        Interrupt::TIMER1_IRQ_1 => 5,
        Interrupt::TIMER1_IRQ_2 => 6,
        Interrupt::TIMER1_IRQ_3 => 7,
        Interrupt::PWM_IRQ_WRAP_0 => 8,
        Interrupt::PWM_IRQ_WRAP_1 => 9,
        Interrupt::DMA_IRQ_0 => 10,
        Interrupt::DMA_IRQ_1 => 11,
        Interrupt::DMA_IRQ_2 => 12,
        Interrupt::DMA_IRQ_3 => 13,
        Interrupt::USBCTRL_IRQ => 14,
        Interrupt::PIO0_IRQ_0 => 15,
        Interrupt::PIO0_IRQ_1 => 16,
        Interrupt::PIO1_IRQ_0 => 17,
        Interrupt::PIO1_IRQ_1 => 18,
        Interrupt::PIO2_IRQ_0 => 19,
        Interrupt::PIO2_IRQ_1 => 20,
        Interrupt::IO_IRQ_BANK0 => 21,
        Interrupt::IO_IRQ_BANK0_NS => 22,
        Interrupt::IO_IRQ_QSPI => 23,
        Interrupt::IO_IRQ_QSPI_NS => 24,
        Interrupt::SIO_IRQ_FIFO => 25,
        Interrupt::SIO_IRQ_BELL => 26,
        Interrupt::SIO_IRQ_FIFO_NS => 27,
        Interrupt::SIO_IRQ_BELL_NS => 28,
        Interrupt::SIO_IRQ_MTIMECMP => 29,
        Interrupt::CLOCKS_IRQ => 30,
        Interrupt::SPI0_IRQ => 31,
        Interrupt::SPI1_IRQ => 32,
        Interrupt::UART0_IRQ => 33,
        Interrupt::UART1_IRQ => 34,
        Interrupt::ADC_IRQ_FIFO => 35,
        Interrupt::I2C0_IRQ => 36,
        Interrupt::I2C1_IRQ => 37,
        Interrupt::OTP_IRQ => 38,
        Interrupt::TRNG_IRQ => 39,
        Interrupt::PROC0_IRQ_CTI => 40,
        Interrupt::PROC1_IRQ_CTI => 41,
        Interrupt::PLL_SYS_IRQ => 42,
        Interrupt::PLL_USB_IRQ => 43,
        Interrupt::POWMAN_IRQ_POW => 44,
        Interrupt::POWMAN_IRQ_TIMER => 45,
        Interrupt::SPAREIRQ_IRQ_0 => 46,
        Interrupt::SPAREIRQ_IRQ_1 => 47,
        Interrupt::SPAREIRQ_IRQ_2 => 48,
        Interrupt::SPAREIRQ_IRQ_3 => 49,
        Interrupt::SPAREIRQ_IRQ_4 => 50,
        Interrupt::SPAREIRQ_IRQ_5 => 51,
    }
}

/// Computes the ordinal of an interrupt source.
pub fn interrupt_num(num: Interrupt) -> (r: usize)
    ensures
        r == spec_interrupt_num(num),
        r < INTERRUPT_COUNT,
{
    match num {
        Interrupt::TIMER0_IRQ_0 => 0,
        Interrupt::TIMER0_IRQ_1 => 1,
        Interrupt::TIMER0_IRQ_2 => 2,
        Interrupt::TIMER0_IRQ_3 => 3,
        Interrupt::TIMER1_IRQ_0 => 4,
        Interrupt::TIMER1_IRQ_1 => 5,
        Interrupt::TIMER1_IRQ_2 => 6,
        Interrupt::TIMER1_IRQ_3 => 7,
        Interrupt::PWM_IRQ_WRAP_0 => 8,
        Interrupt::PWM_IRQ_WRAP_1 => 9,
        Interrupt::DMA_IRQ_0 => 10,
        Interrupt::DMA_IRQ_1 => 11,
        Interrupt::DMA_IRQ_2 => 12,
        Interrupt::DMA_IRQ_3 => 13,
        Interrupt::USBCTRL_IRQ => 14,
        Interrupt::PIO0_IRQ_0 => 15,
        Interrupt::PIO0_IRQ_1 => 16,
        Interrupt::PIO1_IRQ_0 => 17,
        Interrupt::PIO1_IRQ_1 => 18,
        Interrupt::PIO2_IRQ_0 => 19,
        Interrupt::PIO2_IRQ_1 => 20,
        Interrupt::IO_IRQ_BANK0 => 21,
        Interrupt::IO_IRQ_BANK0_NS => 22,
        Interrupt::IO_IRQ_QSPI => 23,
        Interrupt::IO_IRQ_QSPI_NS => 24,
        Interrupt::SIO_IRQ_FIFO => 25,
        Interrupt::SIO_IRQ_BELL => 26,
        Interrupt::SIO_IRQ_FIFO_NS => 27,
        Interrupt::SIO_IRQ_BELL_NS => 28,
        Interrupt::SIO_IRQ_MTIMECMP => 29,
        Interrupt::CLOCKS_IRQ => 30,
        Interrupt::SPI0_IRQ => 31,
        Interrupt::SPI1_IRQ => 32,
        Interrupt::UART0_IRQ => 33,
        Interrupt::UART1_IRQ => 34,
        Interrupt::ADC_IRQ_FIFO => 35,
        Interrupt::I2C0_IRQ => 36,
        Interrupt::I2C1_IRQ => 37,
        Interrupt::OTP_IRQ => 38,
        Interrupt::TRNG_IRQ => 39,
        Interrupt::PROC0_IRQ_CTI => 40,
        Interrupt::PROC1_IRQ_CTI => 41,
        Interrupt::PLL_SYS_IRQ => 42,
        Interrupt::PLL_USB_IRQ => 43,
        Interrupt::POWMAN_IRQ_POW => 44,
        Interrupt::POWMAN_IRQ_TIMER => 45,
        Interrupt::SPAREIRQ_IRQ_0 => 46,
        Interrupt::SPAREIRQ_IRQ_1 => 47,
        Interrupt::SPAREIRQ_IRQ_2 => 48,
        Interrupt::SPAREIRQ_IRQ_3 => 49,
        Interrupt::SPAREIRQ_IRQ_4 => 50,
        Interrupt::SPAREIRQ_IRQ_5 => 51,
    }
}

/// The interrupt source at a given ordinal; total by mapping everything at
/// or above the last ordinal onto the last source.
pub open spec fn spec_interrupt_from_num(n: int) -> Interrupt {
    if n == 0 {
        Interrupt::TIMER0_IRQ_0
    } else if n == 1 {
        Interrupt::TIMER0_IRQ_1
    } else if n == 2 {
        Interrupt::TIMER0_IRQ_2
    } else if n == 3 {
        Interrupt::TIMER0_IRQ_3
    } else if n == 4 {
        Interrupt::TIMER1_IRQ_0
    } else if n == 5 {
        Interrupt::TIMER1_IRQ_1
    } else if n == 6 {
        Interrupt::TIMER1_IRQ_2
    } else if n == 7 {
        Interrupt::TIMER1_IRQ_3
    } else if n == 8 {
        Interrupt::PWM_IRQ_WRAP_0
    } else if n == 9 {
        Interrupt::PWM_IRQ_WRAP_1
    } else if n == 10 {
        Interrupt::DMA_IRQ_0
    } else if n == 11 {
        Interrupt::DMA_IRQ_1
    } else if n == 12 {
        Interrupt::DMA_IRQ_2
    } else if n == 13 {
        Interrupt::DMA_IRQ_3
    } else if n == 14 {
        Interrupt::USBCTRL_IRQ
    } else if n == 15 {
        Interrupt::PIO0_IRQ_0
    } else if n == 16 {
        Interrupt::PIO0_IRQ_1
    } else if n == 17 {
        Interrupt::PIO1_IRQ_0
    } else if n == 18 {
        Interrupt::PIO1_IRQ_1
    } else if n == 19 {
        Interrupt::PIO2_IRQ_0
    } else if n == 20 {
        Interrupt::PIO2_IRQ_1
    } else if n == 21 {
        Interrupt::IO_IRQ_BANK0
    } else if n == 22 {
        Interrupt::IO_IRQ_BANK0_NS
    } else if n == 23 {
        Interrupt::IO_IRQ_QSPI
    } else if n == 24 {
        Interrupt::IO_IRQ_QSPI_NS
    } else if n == 25 {
        Interrupt::SIO_IRQ_FIFO
    } else if n == 26 {
        Interrupt::SIO_IRQ_BELL
    } else if n == 27 {
        Interrupt::SIO_IRQ_FIFO_NS
    } else if n == 28 {
        Interrupt::SIO_IRQ_BELL_NS
    } else if n == 29 {
        Interrupt::SIO_IRQ_MTIMECMP
    } else if n == 30 {
        Interrupt::CLOCKS_IRQ
    } else if n == 31 {
        Interrupt::SPI0_IRQ
    } else if n == 32 {
        Interrupt::SPI1_IRQ
    } else if n == 33 {
        Interrupt::UART0_IRQ
    } else if n == 34 {
        Interrupt::UART1_IRQ
    } else if n == 35 {
        Interrupt::ADC_IRQ_FIFO
    } else if n == 36 {
        Interrupt::I2C0_IRQ
    } else if n == 37 {
        Interrupt::I2C1_IRQ
    } else if n == 38 {
        Interrupt::OTP_IRQ
    } else if n == 39 {
        Interrupt::TRNG_IRQ
    } else if n == 40 {
        Interrupt::PROC0_IRQ_CTI
    } else if n == 41 {
        Interrupt::PROC1_IRQ_CTI
    } else if n == 42 {
        Interrupt::PLL_SYS_IRQ
    } else if n == 43 {
        Interrupt::PLL_USB_IRQ
    } else if n == 44 {
        Interrupt::POWMAN_IRQ_POW
    } else if n == 45 {
        Interrupt::POWMAN_IRQ_TIMER
    } else if n == 46 {
        Interrupt::SPAREIRQ_IRQ_0
    } else if n == 47 {
        Interrupt::SPAREIRQ_IRQ_1
    } else if n == 48 {
        Interrupt::SPAREIRQ_IRQ_2
    } else if n == 49 {
        Interrupt::SPAREIRQ_IRQ_3
    } else if n == 50 {
        Interrupt::SPAREIRQ_IRQ_4
    } else {
        Interrupt::SPAREIRQ_IRQ_5
    }
}

/// The inverse of `interrupt_num`: the unique interrupt source at ordinal
/// `n`.
pub fn interrupt_from_num(n: usize) -> (r: Interrupt)
    requires
        n < INTERRUPT_COUNT,
    ensures
        r == spec_interrupt_from_num(n as int),
        spec_interrupt_num(r) == n,
{
    match n {
        0 => Interrupt::TIMER0_IRQ_0,
        1 => Interrupt::TIMER0_IRQ_1,
        2 => Interrupt::TIMER0_IRQ_2,
        3 => Interrupt::TIMER0_IRQ_3,
        4 => Interrupt::TIMER1_IRQ_0,
        5 => Interrupt::TIMER1_IRQ_1,
        6 => Interrupt::TIMER1_IRQ_2,
        7 => Interrupt::TIMER1_IRQ_3,
        8 => Interrupt::PWM_IRQ_WRAP_0,
        9 => Interrupt::PWM_IRQ_WRAP_1,
        10 => Interrupt::DMA_IRQ_0,
        11 => Interrupt::DMA_IRQ_1,
        12 => Interrupt::DMA_IRQ_2,
        13 => Interrupt::DMA_IRQ_3,
        14 => Interrupt::USBCTRL_IRQ,
        15 => Interrupt::PIO0_IRQ_0,
        16 => Interrupt::PIO0_IRQ_1,
        17 => Interrupt::PIO1_IRQ_0,
        18 => Interrupt::PIO1_IRQ_1,
        19 => Interrupt::PIO2_IRQ_0,
        20 => Interrupt::PIO2_IRQ_1,
        21 => Interrupt::IO_IRQ_BANK0,
        22 => Interrupt::IO_IRQ_BANK0_NS,
        23 => Interrupt::IO_IRQ_QSPI,
        24 => Interrupt::IO_IRQ_QSPI_NS,
        25 => Interrupt::SIO_IRQ_FIFO,
        26 => Interrupt::SIO_IRQ_BELL,
        27 => Interrupt::SIO_IRQ_FIFO_NS,
        28 => Interrupt::SIO_IRQ_BELL_NS,
        29 => Interrupt::SIO_IRQ_MTIMECMP,
        30 => Interrupt::CLOCKS_IRQ,
        31 => Interrupt::SPI0_IRQ,
        32 => Interrupt::SPI1_IRQ,
        33 => Interrupt::UART0_IRQ,
        34 => Interrupt::UART1_IRQ,
        35 => Interrupt::ADC_IRQ_FIFO,
        36 => Interrupt::I2C0_IRQ,
        37 => Interrupt::I2C1_IRQ,
        38 => Interrupt::OTP_IRQ,
        39 => Interrupt::TRNG_IRQ,
        40 => Interrupt::PROC0_IRQ_CTI,
        41 => Interrupt::PROC1_IRQ_CTI,
        42 => Interrupt::PLL_SYS_IRQ,
        43 => Interrupt::PLL_USB_IRQ,
        44 => Interrupt::POWMAN_IRQ_POW,
        45 => Interrupt::POWMAN_IRQ_TIMER,
        46 => Interrupt::SPAREIRQ_IRQ_0,
        47 => Interrupt::SPAREIRQ_IRQ_1,
        48 => Interrupt::SPAREIRQ_IRQ_2,
        49 => Interrupt::SPAREIRQ_IRQ_3,
        50 => Interrupt::SPAREIRQ_IRQ_4,
        _ => Interrupt::SPAREIRQ_IRQ_5,
    }
}

/// Law: the enumeration's mapping onto ordinals is a bijection onto
/// `0..52`. Every source has exactly one ordinal in range, distinct sources
/// have distinct ordinals, and every ordinal in range belongs to exactly one
/// source.
pub proof fn lemma_interrupt_ordinal_bijection()
    ensures
        forall|irq: Interrupt| 0 <= #[trigger] spec_interrupt_num(irq) < INTERRUPT_COUNT,
        forall|a: Interrupt, b: Interrupt|
            spec_interrupt_num(a) == spec_interrupt_num(b) ==> a == b,
        forall|k: int|
            0 <= k < INTERRUPT_COUNT ==> spec_interrupt_num(
                #[trigger] spec_interrupt_from_num(k),
            ) == k,
        forall|irq: Interrupt| spec_interrupt_from_num(spec_interrupt_num(irq)) == irq,
{
}

/// The table-base register ignores the low 7 bits of whatever is written:
/// the hardware requires the table to be 128-byte aligned.
pub open spec fn vtor_mask(addr: u32) -> u32 {
    addr & !0x7fu32
}

/// Law: the defensive alignment mask sends any address to the nearest
/// 128-byte boundary at or below it.
pub proof fn lemma_vtor_mask_aligned(addr: u32)
    ensures
        vtor_mask(addr) % 128 == 0,
        vtor_mask(addr) <= addr,
        addr - vtor_mask(addr) < 128,
        addr % 128 == 0 ==> vtor_mask(addr) == addr,
{
    assert((addr & !0x7fu32) % 128 == 0 && (addr & !0x7fu32) <= addr && addr - (addr & !0x7fu32)
        < 128 && (addr % 128 == 0 ==> (addr & !0x7fu32) == addr)) by (bit_vector);
}

/// Bus address of the table-base register: it sits at the same small offset
/// within whichever 128 KiB-aligned aperture the security state selects.
pub fn vtor_address(secure: bool) -> (r: usize)
    ensures
        secure ==> r == PPB_BASE_SECURE + VTOR_OFFSET,
        !secure ==> r == PPB_BASE_NON_SECURE + VTOR_OFFSET,
{
    let base: usize = if secure {
        PPB_BASE_SECURE
    } else {
        PPB_BASE_NON_SECURE
    };
    base + VTOR_OFFSET
}

/// Bus address of the interrupt-enable register covering `ordinal`: one
/// 32-bit register per 32 consecutive ordinals, 4 bytes apart, in the secure
/// aperture.
pub fn nvic_iser_address(ordinal: usize) -> (r: usize)
    requires
        ordinal < INTERRUPT_COUNT,
    ensures
        r == PPB_BASE_SECURE + NVIC_ISER0 + 4 * (ordinal / 32),
{
    PPB_BASE_SECURE + NVIC_ISER0 + 4 * (ordinal / 32)
}

/// True when processor status word `control` reports privileged Thread-mode
/// code in the secure world: its bit 0 is clear.
pub open spec fn spec_is_secure(control: u32) -> bool {
    control & 1 == 0
}

/// The private-peripheral-bus registers the relocation mechanism touches.
/// The same configuration registers appear in two disjoint apertures; which
/// one a core addresses is decided by its current security state, recomputed
/// on demand from the processor status word.
pub struct Ppb {
    /// Processor status word; bit 0 clear means secure world.
    pub control: u32,
    /// Table-base register as seen through the secure aperture.
    pub vtor_secure: u32,
    /// Table-base register as seen through the non-secure aperture.
    pub vtor_non_secure: u32,
    /// Interrupt-controller enable bank: bit `k` of register `r` enables
    /// ordinal `32 * r + k`.
    pub iser: Vec<u32>,
}

/// Ordinal `n` is enabled in the interrupt-controller bank `iser`.
pub open spec fn spec_nvic_enabled(iser: Seq<u32>, n: int) -> bool {
    iser[n / 32] >> ((n % 32) as u32) & 1 == 1
}

impl Ppb {
    /// One enable register per 32 ordinals.
    pub open spec fn wf(self) -> bool {
        self.iser@.len() == NVIC_ISER_COUNT
    }

    /// The table-base register of the aperture selected by the current
    /// security state.
    pub open spec fn spec_current_vtor(self) -> u32 {
        if spec_is_secure(self.control) {
            self.vtor_secure
        } else {
            self.vtor_non_secure
        }
    }

    /// Registers as they come out of reset: both table-base registers point
    /// at the boot image in flash, no interrupt enabled, secure world.
    pub fn new() -> (r: Ppb)
        ensures
            r.wf(),
            r.control == 0,
            r.vtor_secure == FLASH_BASE,
            r.vtor_non_secure == FLASH_BASE,
            forall|n: int| 0 <= n < INTERRUPT_COUNT ==> !spec_nvic_enabled(r.iser@, n),
    {
        let mut iser: Vec<u32> = Vec::new();
        iser.push(0);
        iser.push(0);
        proof {
            assert(forall|n: int|
                0 <= n < INTERRUPT_COUNT ==> !spec_nvic_enabled(iser@, n)) by {
                assert(forall|k: u32| k < 32 ==> 0u32 >> k & 1 == 0) by (bit_vector);
            }
        }
        Ppb { control: 0, vtor_secure: FLASH_BASE as u32, vtor_non_secure: FLASH_BASE as u32, iser }
    }

    /// Whether the processor is running in the secure world, from bit 0 of
    /// the status word.
    pub fn is_secure(&self) -> (r: bool)
        ensures
            r == spec_is_secure(self.control),
    {
        self.control & 1 == 0
    }

    /// Reads the table-base register through the aperture the current
    /// security state selects.
    pub fn vtor_read(&self) -> (r: u32)
        ensures
            r == self.spec_current_vtor(),
    {
        if self.is_secure() {
            self.vtor_secure
        } else {
            self.vtor_non_secure
        }
    }

    /// Writes a new base address to the table-base register of the aperture
    /// the current security state selects, masked down to the 128-byte
    /// alignment the hardware requires. On hardware the write is followed by
    /// a data-memory barrier and an instruction-synchronization barrier; the
    /// sequential model makes every write immediately visible, which is the
    /// state the barrier pair guarantees.
    pub fn vtor_write(&mut self, addr: u32)
        ensures
            final(self).wf() == old(self).wf(),
            final(self).control == old(self).control,
            final(self).iser@ == old(self).iser@,
            final(self).spec_current_vtor() == vtor_mask(addr),
            spec_is_secure(old(self).control) ==> final(self).vtor_secure == vtor_mask(addr)
                && final(self).vtor_non_secure == old(self).vtor_non_secure,
            !spec_is_secure(old(self).control) ==> final(self).vtor_non_secure == vtor_mask(addr)
                && final(self).vtor_secure == old(self).vtor_secure,
    {
        let masked: u32 = addr & !0x7fu32;
        if self.is_secure() {
            self.vtor_secure = masked;
        } else {
            self.vtor_non_secure = masked;
        }
    }

    /// Enables delivery of `irq` at the interrupt controller: sets bit
    /// `ordinal % 32` in enable register `ordinal / 32` and touches nothing
    /// else. The caller must already have made the RAM table active,
    /// otherwise the interrupt would dispatch through a stale table; that
    /// ordering is the caller's responsibility, not checked here.
    pub fn nvic_enable(&mut self, irq: Interrupt)
        requires
            old(self).wf(),
        ensures
            final(self).wf(),
            final(self).control == old(self).control,
            final(self).vtor_secure == old(self).vtor_secure,
            final(self).vtor_non_secure == old(self).vtor_non_secure,
            spec_nvic_enabled(final(self).iser@, spec_interrupt_num(irq)),
            forall|m: int|
                0 <= m < INTERRUPT_COUNT && m != spec_interrupt_num(irq) ==> spec_nvic_enabled(
                    final(self).iser@,
                    m,
                ) == spec_nvic_enabled(old(self).iser@, m),
    {
        let irq_num: usize = interrupt_num(irq);
        let reg: usize = irq_num / 32;
        let shift: u32 = (irq_num % 32) as u32;
        let updated: u32 = self.iser[reg] | (1u32 << shift);
        let ghost old_word: u32 = self.iser@[reg as int];
        self.iser.set(reg, updated);
        proof {
            assert(updated >> shift & 1 == 1 && forall|j: u32|
                j < 32 && j != shift ==> (updated >> j & 1 == old_word >> j & 1)) by (bit_vector)
                requires
                    shift < 32,
                    updated == old_word | (1u32 << shift),
            ;
            assert forall|m: int|
                0 <= m < INTERRUPT_COUNT && m != spec_interrupt_num(irq) implies spec_nvic_enabled(
                final(self).iser@,
                m,
            ) == spec_nvic_enabled(old(self).iser@, m) by {
                if m / 32 == reg as int {
                    assert((m % 32) as u32 != shift);
                }
            }
        }
    }
}

/// The RAM-resident vector table together with the immutable boot image it
/// is bootstrapped from and the address it sits at in RAM.
pub struct VectorTable {
    /// The 96 words of the boot image, as flashed. Never written by this
    /// mechanism.
    pub boot_image: Vec<u32>,
    /// The RAM copy: 16 reserved exception entries followed by one slot per
    /// interrupt ordinal.
    pub ram: Vec<u32>,
    /// Address of the RAM copy, written to the table-base register on
    /// activation. The table's natural placement keeps it 128-byte aligned;
    /// activation masks defensively either way.
    pub base: u32,
}

impl VectorTable {
    pub open spec fn wf(self) -> bool {
        self.boot_image@.len() == VECTOR_TABLE_ENTRIES && self.ram@.len() == VECTOR_TABLE_ENTRIES
    }

    /// A table that is not yet bootstrapped: the RAM copy is zeroed, as the
    /// loader leaves it.
    pub fn new(boot_image: Vec<u32>, base: u32) -> (r: VectorTable)
        requires
            boot_image@.len() == VECTOR_TABLE_ENTRIES,
        ensures
            r.wf(),
            r.boot_image@ == boot_image@,
            r.base == base,
            forall|j: int| 0 <= j < VECTOR_TABLE_ENTRIES ==> r.ram@[j] == 0,
    {
        let mut ram: Vec<u32> = Vec::new();
        let mut i: usize = 0;
        while i < VECTOR_TABLE_ENTRIES
            invariant
                i <= VECTOR_TABLE_ENTRIES,
                ram@.len() == i,
                forall|j: int| 0 <= j < i ==> ram@[j] == 0,
            decreases VECTOR_TABLE_ENTRIES - i,
        {
            ram.push(0);
            i = i + 1;
        }
        VectorTable { boot_image, ram, base }
    }

    /// Bootstrap copy: copies the fixed 96-entry image from its immutable
    /// boot location into the RAM table, word by word, preserving order. To
    /// be called once, before any handler installation; calling it again is
    /// safe but discards any installed handlers.
    pub fn copy_vector_table_to_ram(&mut self)
        requires
            old(self).wf(),
        ensures
            final(self).wf(),
            final(self).ram@ == old(self).boot_image@,
            final(self).boot_image@ == old(self).boot_image@,
            final(self).base == old(self).base,
    {
        let mut i: usize = 0;
        while i < VECTOR_TABLE_ENTRIES
            invariant
                i <= VECTOR_TABLE_ENTRIES,
                self.wf(),
                self.boot_image@ == old(self).boot_image@,
                self.base == old(self).base,
                forall|j: int| 0 <= j < i ==> self.ram@[j] == self.boot_image@[j],
                forall|j: int|
                    i <= j < VECTOR_TABLE_ENTRIES ==> self.ram@[j] == old(self).ram@[j],
            decreases VECTOR_TABLE_ENTRIES - i,
        {
            let value: u32 = self.boot_image[i];
            self.ram.set(i, value);
            i = i + 1;
        }
        proof {
            assert(final(self).ram@ =~= old(self).boot_image@);
        }
    }

    /// Installs an interrupt handler at runtime: writes the handler's entry
    /// address into the RAM table slot of `irq`'s ordinal, leaving every
    /// other slot as it was, then activates the RAM table by re-pointing the
    /// table-base register at it. Installation alone does not deliver the
    /// interrupt; the line must also be enabled at the controller and an
    /// event must be pending.
    pub fn set_irq_handler(&mut self, ppb: &mut Ppb, irq: Interrupt, handler: u32)
        requires
            old(self).wf(),
        ensures
            final(self).wf(),
            final(self).ram@ == old(self).ram@.update(
                VTABLE_FIRST_IRQ + spec_interrupt_num(irq),
                handler,
            ),
            final(self).boot_image@ == old(self).boot_image@,
            final(self).base == old(self).base,
            final(ppb).control == old(ppb).control,
            final(ppb).iser@ == old(ppb).iser@,
            final(ppb).spec_current_vtor() == vtor_mask(old(self).base),
    {
        let irq_num: usize = interrupt_num(irq);
        let index: usize = VTABLE_FIRST_IRQ + irq_num;
        self.ram.set(index, handler);
        ppb.vtor_write(self.base);
    }

    /// Installs a handler as `set_irq_handler` does, but holds the lock line
    /// reserved for table mutation across the slot write and the
    /// re-activation, so that two cores running this path serialize instead
    /// of racing the table. Returns false, changing nothing, when the line
    /// is already held; the caller retries. Either way the line is as free
    /// afterwards as it was before.
    pub fn set_irq_handler_guarded(
        &mut self,
        ppb: &mut Ppb,
        pool: &mut SpinlockPool,
        irq: Interrupt,
        handler: u32,
    ) -> (r: bool)
        requires
            old(self).wf(),
            old(pool).wf(),
        ensures
            final(self).wf(),
            final(pool).wf(),
            r <==> old(pool).line_free(VECTOR_TABLE_LOCK as int),
            final(pool).lines@ =~= old(pool).lines@,
            r ==> final(self).ram@ == old(self).ram@.update(
                VTABLE_FIRST_IRQ + spec_interrupt_num(irq),
                handler,
            ) && final(ppb).spec_current_vtor() == vtor_mask(old(self).base),
            r ==> final(self).boot_image@ == old(self).boot_image@ && final(self).base == old(
                self,
            ).base && final(ppb).control == old(ppb).control && final(ppb).iser@ == old(ppb).iser@,
            !r ==> *final(self) == *old(self) && *final(ppb) == *old(ppb),
    {
        let claim: Option<Spinlock<VECTOR_TABLE_LOCK>> = Spinlock::try_claim(pool);
        match claim {
            Some(guard) => {
                self.set_irq_handler(ppb, irq, handler);
                guard.release(pool);
                true
            },
            None => false,
        }
    }

    /// One dispatch of `irq`, as the hardware would perform it: nothing runs
    /// unless the line is enabled at the controller, and the handler fetched
    /// is the word at the ordinal's slot of whichever table the table-base
    /// register currently points at. The model holds one relocatable table,
    /// so a base register pointing anywhere else (the boot image, or a stale
    /// address) dispatches through memory this model does not hold and
    /// yields nothing here.
    pub fn dispatch(&self, ppb: &Ppb, irq: Interrupt) -> (r: Option<u32>)
        requires
            self.wf(),
            ppb.wf(),
        ensures
            r is Some <==> spec_nvic_enabled(ppb.iser@, spec_interrupt_num(irq))
                && ppb.spec_current_vtor() == self.base,
            r is Some ==> r == Some(
                self.ram@[VTABLE_FIRST_IRQ + spec_interrupt_num(irq)],
            ),
    {
        let irq_num: usize = interrupt_num(irq);
        let reg: usize = irq_num / 32;
        let shift: u32 = (irq_num % 32) as u32;
        let enabled: bool = (ppb.iser[reg] >> shift) & 1 == 1;
        if enabled && ppb.vtor_read() == self.base {
            Some(self.ram[VTABLE_FIRST_IRQ + irq_num])
        } else {
            None
        }
    }
}

} // verus!
