//! UART peripheral model.
//!
//! The UART is not part of the relocation/spinlock core; it is the
//! peripheral whose receive interrupt the end-to-end bring-up path installs
//! a handler for. The model holds the register fields the driver writes and
//! the two byte streams it moves: `rx`, the receive FIFO still to be read,
//! and `tx`, the bytes handed to the transmitter so far. The volatile
//! accesses that move these bytes through the real register block are the
//! unverified edge outside this library; the model keeps every register
//! computation and every FIFO transformation checkable.

use vstd::prelude::*;
use vstd::string::StringSliceAdditionalSpecFns;

verus! {

/// Base address of the UART0 register block.
pub const UART0_BASE: usize = 0x4007_0000;

/// Register offsets within the block.
pub const UARTDR_OFFSET: usize = 0x000;

pub const UARTFR_OFFSET: usize = 0x018;

pub const UARTIBRD_OFFSET: usize = 0x024;

pub const UARTFBRD_OFFSET: usize = 0x028;

pub const UARTLCR_H_OFFSET: usize = 0x02C;

pub const UARTCR_OFFSET: usize = 0x030;

pub const UARTIFLS_OFFSET: usize = 0x34;

pub const UARTIMSC_OFFSET: usize = 0x38;

pub const UARTICR_OFFSET: usize = 0x044;

pub const UARTDMACR_OFFSET: usize = 0x048;

/// Flag-register bits.
pub const UARTFR_TXFF: u32 = 1 << 5;

pub const UARTFR_RXFE: u32 = 1 << 4;

/// Line-control bits for the 8-bits-no-parity-1-stop frame and the FIFO
/// enable.
pub const UARTLCR_H_WLEN_8: u32 = 3 << 5;

pub const UARTLCR_H_FEN: u32 = 1 << 4;

/// Control-register bits.
pub const UARTCR_UARTEN: u32 = 1 << 0;

pub const UARTCR_TXE: u32 = 1 << 8;

pub const UARTCR_RXE: u32 = 1 << 9;

/// Interrupt mask and clear bits for the receive interrupt.
pub const RXIC: u32 = 1 << 4;

pub const RXIM: u32 = 1 << 4;

pub const TXIM: u32 = 1 << 5;

/// FIFO trigger levels at one half for both directions.
pub const UARTIFLS_HALF: u32 = (0b011 << 3) | 0b011;

/// How one byte leaves the transmitter under terminal line-ending
/// translation: a line feed or a carriage return becomes the
/// carriage-return, line-feed pair; anything else passes through.
pub open spec fn spec_crlf_encode_byte(b: u8) -> Seq<u8> {
    if b == 10 || b == 13 {
        seq![13u8, 10u8]
    } else {
        seq![b]
    }
}

/// A byte string under terminal line-ending translation, in order.
pub open spec fn spec_crlf_encode(bs: Seq<u8>) -> Seq<u8>
    decreases bs.len(),
{
    if bs.len() == 0 {
        Seq::empty()
    } else {
        spec_crlf_encode(bs.drop_last()) + spec_crlf_encode_byte(bs.last())
    }
}

/// The UART0 block: its configuration registers and the two byte streams.
pub struct Uart {
    /// Receive FIFO: bytes arrived on the wire and not yet read, oldest
    /// first.
    pub rx: Vec<u8>,
    /// Every byte handed to the transmitter so far, in order.
    pub tx: Vec<u8>,
    /// Integer and fractional baud-rate divisors.
    pub ibrd: u32,
    pub fbrd: u32,
    /// Line control: frame format and FIFO enable.
    pub lcr_h: u32,
    /// Control: device, transmitter and receiver enables.
    pub cr: u32,
    /// Interrupt mask: which conditions may raise the line's interrupt.
    pub imsc: u32,
    /// FIFO trigger levels.
    pub ifls: u32,
    /// DMA control.
    pub dmacr: u32,
    /// Whether the receive interrupt condition is currently pending.
    pub rx_irq_pending: bool,
}

/// The configuration registers of `pre` and `post` coincide.
pub open spec fn spec_config_unchanged(pre: Uart, post: Uart) -> bool {
    post.ibrd == pre.ibrd && post.fbrd == pre.fbrd && post.lcr_h == pre.lcr_h && post.cr == pre.cr
        && post.imsc == pre.imsc && post.ifls == pre.ifls && post.dmacr == pre.dmacr
}

/// The byte streams of `pre` and `post` coincide.
pub open spec fn spec_fifos_unchanged(pre: Uart, post: Uart) -> bool {
    post.rx@ == pre.rx@ && post.tx@ == pre.tx@
}

/// The expected integer and fractional baud-rate divisors for a peripheral
/// clock frequency and a baud rate: the scaled quotient `8 * clk / baud + 1`
/// splits into an integer part (its high bits) and a fractional part (half
/// its remainder modulo 128), with the integer part clamped into
/// `[1, 65535]` and the fractional part dropped at either end of the range.
pub open spec fn spec_baud_divisors(clk_peri_hz: int, baud: int) -> (int, int) {
    let brd = 8 * clk_peri_hz / baud + 1;
    if brd / 128 == 0 {
        (1, 0)
    } else if brd / 128 >= 65535 {
        (65535, 0)
    } else {
        (brd / 128, (brd % 128) / 2)
    }
}

/// Computes the baud-rate divisors for a peripheral clock frequency and a
/// baud rate.
///
/// `clk_peri_hz`: the peripheral clock frequency in Hz, as read from its
/// 32-bit register. `baud`: the UART baud rate.
pub fn baud_divisors(clk_peri_hz: usize, baud: usize) -> (r: (usize, usize))
    requires
        baud > 0,
        clk_peri_hz <= u32::MAX,
    ensures
        r.0 == spec_baud_divisors(clk_peri_hz as int, baud as int).0,
        r.1 == spec_baud_divisors(clk_peri_hz as int, baud as int).1,
        1 <= r.0 <= 65535,
        r.1 < 64,
{
    proof {
        assert((8 * (clk_peri_hz as int)) / (baud as int) <= 8 * (clk_peri_hz as int))
            by (nonlinear_arith)
            requires
                baud >= 1,
        ;
    }
    let brd: u64 = 8u64 * (clk_peri_hz as u64) / (baud as u64) + 1;
    proof {
        assert(brd >> 7 == brd / 128 && (brd & 0x7f) == brd % 128 && ((brd & 0x7f) >> 1) == brd
            % 128 / 2 && brd % 128 / 2 < 64 && (brd <= 0x8_0000_0001 ==> brd >> 7
            <= 0x1000_0000)) by (bit_vector);
    }
    let mut ibrd: usize = (brd >> 7) as usize;
    let mut fbrd: usize = ((brd & 0x7f) as usize) >> 1;
    if ibrd == 0 {
        ibrd = 1;
        fbrd = 0;
    }
    if ibrd >= 65535 {
        ibrd = 65535;
        fbrd = 0;
    }
    (ibrd, fbrd)
}

/// The peripheral clock frequency encoded by its control and divisor
/// register words: zero unless the clock is enabled (bit 28 of the control
/// word) with the crystal oscillator as its auxiliary source (value 4 in
/// bits 5 to 7), in which case the oscillator's 12 MHz is divided by the
/// integer divisor field (bits 16 to 17, where zero stands for one).
pub open spec fn spec_clk_peri_hz(ctrl: u32, div: u32) -> u32 {
    if (ctrl >> 28) & 1 == 0 {
        0u32
    } else {
        let base = if (ctrl >> 5) & 0x7 == 4 {
            12_000_000u32
        } else {
            0u32
        };
        let int_div = (div >> 16) & 0x3;
        if int_div == 0 {
            base / 1
        } else {
            base / int_div
        }
    }
}

/// Decodes the current peripheral clock frequency in Hz from the two clock
/// register words.
pub fn get_clk_peri_hz(ctrl: u32, div: u32) -> (r: u32)
    ensures
        r == spec_clk_peri_hz(ctrl, div),
{
    let enabled: u32 = (ctrl >> 28) & 1;
    if enabled == 0 {
        return 0;
    }
    let auxsrc: u32 = (ctrl >> 5) & 0x7;
    let base: u32 = if auxsrc == 4 {
        12_000_000
    } else {
        0
    };
    let int_div: u32 = (div >> 16) & 0x3;
    let int_div: u32 = if int_div == 0 {
        1
    } else {
        int_div
    };
    base / int_div
}

impl Uart {
    /// The block as the driver finds it before initialization: quiet, with
    /// empty FIFOs.
    pub fn new() -> (r: Uart)
        ensures
            r.rx@.len() == 0,
            r.tx@.len() == 0,
            r.ibrd == 0 && r.fbrd == 0 && r.lcr_h == 0 && r.cr == 0 && r.imsc == 0 && r.ifls == 0
                && r.dmacr == 0,
            !r.rx_irq_pending,
    {
        Uart {
            rx: Vec::new(),
            tx: Vec::new(),
            ibrd: 0,
            fbrd: 0,
            lcr_h: 0,
            cr: 0,
            imsc: 0,
            ifls: 0,
            dmacr: 0,
            rx_irq_pending: false,
        }
    }

    /// Initializes the controller: clears pending interrupts, masks them
    /// all, sets half-FIFO trigger levels, programs the baud-rate divisors
    /// computed from the actual peripheral clock, latches the
    /// 8-bits-no-parity-1-stop frame with FIFOs enabled, switches DMA off,
    /// and finally enables the device with both directions.
    ///
    /// `baud`: the baud rate to sync to. `clk_peri_hz`: the peripheral
    /// clock frequency, which the caller reads at the clock block
    /// (`get_clk_peri_hz`); the system clocks must already be initialized
    /// for that value to be live.
    pub fn uart_init(&mut self, baud: usize, clk_peri_hz: usize)
        requires
            baud > 0,
            clk_peri_hz <= u32::MAX,
        ensures
            final(self).ibrd == spec_baud_divisors(clk_peri_hz as int, baud as int).0,
            final(self).fbrd == spec_baud_divisors(clk_peri_hz as int, baud as int).1,
            final(self).lcr_h == UARTLCR_H_WLEN_8 | UARTLCR_H_FEN,
            final(self).cr == UARTCR_UARTEN | UARTCR_TXE | UARTCR_RXE,
            final(self).imsc == 0,
            final(self).ifls == UARTIFLS_HALF,
            final(self).dmacr == 0,
            !final(self).rx_irq_pending,
            spec_fifos_unchanged(*old(self), *final(self)),
    {
        // Disable while configuring.
        self.cr = 0;
        // Clear all pending interrupts and errors.
        self.rx_irq_pending = false;
        // FIFO trigger levels at one half.
        self.ifls = UARTIFLS_HALF;
        // Mask all interrupts.
        self.imsc = 0;
        // Divisors from the actual peripheral clock. The divisor registers
        // keep 16 and 6 bits; the computed values already fit.
        let (ibrd, fbrd) = baud_divisors(clk_peri_hz, baud);
        self.ibrd = (ibrd & 0xFFFF) as u32;
        self.fbrd = (fbrd & 0x3F) as u32;
        proof {
            assert(ibrd <= 65535 ==> (ibrd & 0xFFFF) == ibrd) by (bit_vector);
            assert(fbrd < 64 ==> (fbrd & 0x3F) == fbrd) by (bit_vector);
        }
        // Frame format; writing the line-control register latches the
        // divisors.
        self.lcr_h = UARTLCR_H_WLEN_8 | UARTLCR_H_FEN;
        // DMA off.
        self.dmacr = 0;
        // Enable the device, transmitter and receiver.
        self.cr = UARTCR_UARTEN | UARTCR_TXE | UARTCR_RXE;
    }

    /// Hands one byte to the transmitter. The real register write blocks
    /// while the transmit FIFO is full; the model's transmit stream is the
    /// full record of what has been sent, so the byte is appended directly.
    ///
    /// `b`: byte to write.
    pub fn putc(&mut self, b: u8)
        ensures
            final(self).tx@ == old(self).tx@.push(b),
            final(self).rx@ == old(self).rx@,
            spec_config_unchanged(*old(self), *final(self)),
            final(self).rx_irq_pending == old(self).rx_irq_pending,
    {
        self.tx.push(b);
    }

    /// Writes every byte of a string to the transmitter, in order.
    ///
    /// `s`: string to write.
    pub fn puts(&mut self, s: &str)
        ensures
            final(self).tx@ == old(self).tx@ + s.spec_bytes(),
            final(self).rx@ == old(self).rx@,
            spec_config_unchanged(*old(self), *final(self)),
            final(self).rx_irq_pending == old(self).rx_irq_pending,
    {
        let bytes: &[u8] = s.as_bytes();
        let mut i: usize = 0;
        while i < bytes.len()
            invariant
                i <= bytes@.len(),
                bytes@ == s.spec_bytes(),
                self.tx@ == old(self).tx@ + bytes@.take(i as int),
                self.rx@ == old(self).rx@,
                spec_config_unchanged(*old(self), *self),
                self.rx_irq_pending == old(self).rx_irq_pending,
            decreases bytes@.len() - i,
        {
            let b: u8 = bytes[i];
            self.putc(b);
            proof {
                assert(old(self).tx@ + bytes@.take(i as int) + seq![b] =~= old(self).tx@
                    + bytes@.take(i as int + 1));
            }
            i = i + 1;
        }
        proof {
            assert(bytes@.take(bytes@.len() as int) =~= bytes@);
        }
    }

    /// Blocking read of one character. Blocking is a wait for the receive
    /// FIFO to be nonempty, so the model asks for that up front; the byte
    /// read is the oldest one, with any error flags above the data bits
    /// ignored.
    pub fn getc(&mut self) -> (r: char)
        requires
            old(self).rx@.len() > 0,
        ensures
            r == old(self).rx@[0] as char,
            final(self).rx@ == old(self).rx@.subrange(1, old(self).rx@.len() as int),
            final(self).tx@ == old(self).tx@,
            spec_config_unchanged(*old(self), *final(self)),
            final(self).rx_irq_pending == old(self).rx_irq_pending,
    {
        let data: u8 = self.rx.remove(0);
        proof {
            assert(final(self).rx@ =~= old(self).rx@.subrange(1, old(self).rx@.len() as int));
        }
        data as char
    }

    /// Non-blocking read of one character: the oldest received byte, or
    /// nothing if the receive FIFO is empty.
    pub fn getc_nonblocking(&mut self) -> (r: Option<u8>)
        ensures
            old(self).rx@.len() == 0 ==> r is None && final(self).rx@ == old(self).rx@,
            old(self).rx@.len() > 0 ==> r == Some(old(self).rx@[0]) && final(self).rx@ == old(
                self,
            ).rx@.subrange(1, old(self).rx@.len() as int),
            final(self).tx@ == old(self).tx@,
            spec_config_unchanged(*old(self), *final(self)),
            final(self).rx_irq_pending == old(self).rx_irq_pending,
    {
        if self.rx.len() == 0 {
            None
        } else {
            let data: u8 = self.rx.remove(0);
            proof {
                assert(final(self).rx@ =~= old(self).rx@.subrange(
                    1,
                    old(self).rx@.len() as int,
                ));
            }
            Some(data)
        }
    }

    /// Enables or disables the receive and transmit FIFOs: sets or clears
    /// the FIFO-enable bit of the line-control register, leaving the frame
    /// format alone.
    ///
    /// `enabled`: true for FIFO mode, false for character-by-character
    /// operation.
    pub fn uart_enable_fifo(&mut self, enabled: bool)
        ensures
            enabled ==> final(self).lcr_h == old(self).lcr_h | UARTLCR_H_FEN,
            !enabled ==> final(self).lcr_h == old(self).lcr_h & !UARTLCR_H_FEN,
            final(self).ibrd == old(self).ibrd,
            final(self).fbrd == old(self).fbrd,
            final(self).cr == old(self).cr,
            final(self).imsc == old(self).imsc,
            final(self).ifls == old(self).ifls,
            final(self).dmacr == old(self).dmacr,
            spec_fifos_unchanged(*old(self), *final(self)),
            final(self).rx_irq_pending == old(self).rx_irq_pending,
    {
        if enabled {
            self.lcr_h = self.lcr_h | UARTLCR_H_FEN;
        } else {
            self.lcr_h = self.lcr_h & !UARTLCR_H_FEN;
        }
    }

    /// Chooses which conditions may interrupt: clears anything pending, then
    /// unmasks the receive and transmit conditions as asked.
    ///
    /// `rx`: enable receive interrupts. `tx`: enable transmit interrupts.
    pub fn uart_irq_enable(&mut self, rx: bool, tx: bool)
        ensures
            final(self).imsc == (if rx {
                RXIM
            } else {
                0u32
            }) | (if tx {
                TXIM
            } else {
                0u32
            }),
            !final(self).rx_irq_pending,
            final(self).ibrd == old(self).ibrd,
            final(self).fbrd == old(self).fbrd,
            final(self).lcr_h == old(self).lcr_h,
            final(self).cr == old(self).cr,
            final(self).ifls == old(self).ifls,
            final(self).dmacr == old(self).dmacr,
            spec_fifos_unchanged(*old(self), *final(self)),
    {
        let mask: u32 = (if rx {
            RXIM
        } else {
            0
        }) | (if tx {
            TXIM
        } else {
            0
        });
        // Clear pending, then unmask.
        self.rx_irq_pending = false;
        self.imsc = mask;
    }

    /// Clears the pending receive interrupt condition.
    pub fn clear_rx_irq(&mut self)
        ensures
            !final(self).rx_irq_pending,
            spec_config_unchanged(*old(self), *final(self)),
            spec_fifos_unchanged(*old(self), *final(self)),
    {
        self.rx_irq_pending = false;
    }

    /// Drains the receive FIFO, discarding its contents.
    pub fn uart_handle_rx_irq(&mut self)
        ensures
            final(self).rx@.len() == 0,
            final(self).tx@ == old(self).tx@,
            spec_config_unchanged(*old(self), *final(self)),
            final(self).rx_irq_pending == old(self).rx_irq_pending,
    {
        while self.rx.len() > 0
            invariant
                self.tx@ == old(self).tx@,
                spec_config_unchanged(*old(self), *self),
                self.rx_irq_pending == old(self).rx_irq_pending,
            decreases self.rx@.len(),
        {
            let _discarded: char = self.getc();
        }
    }

    /// One byte arriving on the wire: it joins the receive FIFO, and raises
    /// the pending receive interrupt condition if the receive interrupt is
    /// unmasked.
    ///
    /// `b`: the byte received.
    pub fn receive_byte(&mut self, b: u8)
        ensures
            final(self).rx@ == old(self).rx@.push(b),
            final(self).tx@ == old(self).tx@,
            spec_config_unchanged(*old(self), *final(self)),
            final(self).rx_irq_pending == (old(self).rx_irq_pending || (old(self).imsc >> 4) & 1
                == 1),
    {
        self.rx.push(b);
        if (self.imsc >> 4) & 1 == 1 {
            self.rx_irq_pending = true;
        }
    }

    /// Writes a string to the transmitter with terminal line endings: both
    /// the line feed and the carriage return become the carriage-return,
    /// line-feed pair, every other byte passes through unchanged.
    ///
    /// `s`: string to write.
    pub fn write_str(&mut self, s: &str)
        ensures
            final(self).tx@ == old(self).tx@ + spec_crlf_encode(s.spec_bytes()),
            final(self).rx@ == old(self).rx@,
            spec_config_unchanged(*old(self), *final(self)),
            final(self).rx_irq_pending == old(self).rx_irq_pending,
    {
        let bytes: &[u8] = s.as_bytes();
        let mut i: usize = 0;
        while i < bytes.len()
            invariant
                i <= bytes@.len(),
                bytes@ == s.spec_bytes(),
                self.tx@ == old(self).tx@ + spec_crlf_encode(bytes@.take(i as int)),
                self.rx@ == old(self).rx@,
                spec_config_unchanged(*old(self), *self),
                self.rx_irq_pending == old(self).rx_irq_pending,
            decreases bytes@.len() - i,
        {
            let b: u8 = bytes[i];
            if b == 10 || b == 13 {
                self.putc(13);
                self.putc(10);
            } else {
                self.putc(b);
            }
            proof {
                assert(bytes@.take(i as int + 1).drop_last() =~= bytes@.take(i as int));
                assert(bytes@.take(i as int + 1).last() == bytes@[i as int]);
                assert(self.tx@ =~= old(self).tx@ + spec_crlf_encode(bytes@.take(i as int + 1)));
            }
            i = i + 1;
        }
        proof {
            assert(bytes@.take(bytes@.len() as int) =~= bytes@);
        }
    }

    /// The receive interrupt handler of the bring-up path: echoes every
    /// pending received byte back to the transmitter in arrival order, then
    /// clears the interrupt condition.
    pub fn on_uart_rx(&mut self)
        ensures
            final(self).tx@ == old(self).tx@ + old(self).rx@,
            final(self).rx@.len() == 0,
            !final(self).rx_irq_pending,
            spec_config_unchanged(*old(self), *final(self)),
    {
        let total: usize = self.rx.len();
        let mut k: usize = 0;
        while self.rx.len() > 0
            invariant
                total == old(self).rx@.len(),
                k <= total,
                self.rx@ == old(self).rx@.subrange(k as int, old(self).rx@.len() as int),
                self.tx@ == old(self).tx@ + old(self).rx@.take(k as int),
                spec_config_unchanged(*old(self), *self),
            decreases self.rx@.len(),
        {
            let got: Option<u8> = self.getc_nonblocking();
            match got {
                Some(ch) => {
                    proof {
                        assert(ch == old(self).rx@[k as int]);
                        assert(self.rx@ =~= old(self).rx@.subrange(
                            k as int + 1,
                            old(self).rx@.len() as int,
                        ));
                    }
                    self.putc(ch);
                    proof {
                        assert(old(self).tx@ + old(self).rx@.take(k as int) + seq![ch] =~= old(
                            self,
                        ).tx@ + old(self).rx@.take(k as int + 1));
                    }
                    k = k + 1;
                },
                None => {
                },
            }
        }
        proof {
            assert(old(self).rx@.take(k as int) =~= old(self).rx@);
        }
        self.clear_rx_irq();
    }
}

} // verus!
