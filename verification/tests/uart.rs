use pico_os::uart::{
    baud_divisors, get_clk_peri_hz, Uart, RXIM, TXIM, UARTCR_RXE, UARTCR_TXE, UARTCR_UARTEN,
    UARTIFLS_HALF, UARTLCR_H_FEN, UARTLCR_H_WLEN_8,
};

#[test]
fn test_baud_divisors_known_rates() {
    // 12 MHz peripheral clock at 115200 baud: the standard divisor pair.
    assert_eq!(baud_divisors(12_000_000, 115200), (6, 33));
    // 12 MHz at 9600 baud: 8 * 12e6 / 9600 + 1 = 10001 -> (78, 8).
    assert_eq!(baud_divisors(12_000_000, 9600), (78, 8));
}

#[test]
fn test_baud_divisors_clamped() {
    // A baud rate far above the clock drives the divisor to the low clamp.
    assert_eq!(baud_divisors(100, 115200), (1, 0));
    // A tiny baud rate drives it to the high clamp.
    assert_eq!(baud_divisors(4_000_000_000, 1), (65535, 0));
}

#[test]
fn test_clk_peri_decode() {
    // Enabled (bit 28), auxiliary source 4 (bits 5..8), divisor 1 (bits
    // 16..18): the crystal oscillator's 12 MHz.
    let ctrl = (1 << 28) | (4 << 5);
    assert_eq!(get_clk_peri_hz(ctrl, 1 << 16), 12_000_000);
    // Divisor field 2 halves it.
    assert_eq!(get_clk_peri_hz(ctrl, 2 << 16), 6_000_000);
    // Divisor field 0 stands for 1.
    assert_eq!(get_clk_peri_hz(ctrl, 0), 12_000_000);
    // Disabled clock reads zero.
    assert_eq!(get_clk_peri_hz(4 << 5, 1 << 16), 0);
    // Another auxiliary source is not a known path.
    assert_eq!(get_clk_peri_hz((1 << 28) | (3 << 5), 1 << 16), 0);
}

#[test]
fn test_uart_init_programs_registers() {
    let mut uart = Uart::new();
    uart.uart_init(115200, 12_000_000);
    assert_eq!(uart.ibrd, 6);
    assert_eq!(uart.fbrd, 33);
    assert_eq!(uart.lcr_h, UARTLCR_H_WLEN_8 | UARTLCR_H_FEN);
    assert_eq!(uart.cr, UARTCR_UARTEN | UARTCR_TXE | UARTCR_RXE);
    assert_eq!(uart.imsc, 0);
    assert_eq!(uart.ifls, UARTIFLS_HALF);
    assert_eq!(uart.dmacr, 0);
    assert!(!uart.rx_irq_pending);
}

#[test]
fn test_putc_and_puts_append_in_order() {
    let mut uart = Uart::new();
    uart.putc(b'A');
    assert_eq!(uart.tx, vec![b'A']);
    uart.puts("BC");
    assert_eq!(uart.tx, vec![b'A', b'B', b'C']);
    uart.puts("");
    assert_eq!(uart.tx, vec![b'A', b'B', b'C']);
}

#[test]
fn test_getc_nonblocking_drains_fifo() {
    let mut uart = Uart::new();
    assert_eq!(uart.getc_nonblocking(), None);
    uart.receive_byte(1);
    uart.receive_byte(2);
    assert_eq!(uart.getc_nonblocking(), Some(1));
    assert_eq!(uart.getc_nonblocking(), Some(2));
    assert_eq!(uart.getc_nonblocking(), None);
}

#[test]
fn test_getc_reads_oldest() {
    let mut uart = Uart::new();
    uart.receive_byte(b'x');
    uart.receive_byte(b'y');
    assert_eq!(uart.getc(), 'x');
    assert_eq!(uart.getc(), 'y');
}

#[test]
fn test_enable_fifo_toggles_only_the_fen_bit() {
    let mut uart = Uart::new();
    uart.uart_init(115200, 12_000_000);
    uart.uart_enable_fifo(false);
    assert_eq!(uart.lcr_h, UARTLCR_H_WLEN_8);
    uart.uart_enable_fifo(true);
    assert_eq!(uart.lcr_h, UARTLCR_H_WLEN_8 | UARTLCR_H_FEN);
}

#[test]
fn test_irq_enable_mask_and_pending() {
    let mut uart = Uart::new();
    uart.uart_irq_enable(true, false);
    assert_eq!(uart.imsc, RXIM);
    uart.uart_irq_enable(false, true);
    assert_eq!(uart.imsc, TXIM);
    uart.uart_irq_enable(true, true);
    assert_eq!(uart.imsc, RXIM | TXIM);
    uart.uart_irq_enable(false, false);
    assert_eq!(uart.imsc, 0);

    // With the receive interrupt unmasked, an arriving byte raises the
    // pending condition, and clearing drops it.
    uart.uart_irq_enable(true, false);
    uart.receive_byte(7);
    assert!(uart.rx_irq_pending);
    uart.clear_rx_irq();
    assert!(!uart.rx_irq_pending);

    // With it masked, arrival raises nothing.
    uart.uart_irq_enable(false, false);
    uart.receive_byte(8);
    assert!(!uart.rx_irq_pending);
}

#[test]
fn test_handle_rx_irq_discards_fifo() {
    let mut uart = Uart::new();
    uart.receive_byte(1);
    uart.receive_byte(2);
    uart.putc(9);
    uart.uart_handle_rx_irq();
    assert!(uart.rx.is_empty());
    assert_eq!(uart.tx, vec![9]);
}

#[test]
fn test_on_uart_rx_echoes_in_order() {
    let mut uart = Uart::new();
    uart.uart_irq_enable(true, false);
    uart.receive_byte(b'h');
    uart.receive_byte(b'i');
    assert!(uart.rx_irq_pending);
    uart.on_uart_rx();
    assert_eq!(uart.tx, vec![b'h', b'i']);
    assert!(uart.rx.is_empty());
    assert!(!uart.rx_irq_pending);
}

#[test]
fn test_write_str_translates_line_endings() {
    let mut uart = Uart::new();
    uart.write_str("a\nb");
    assert_eq!(uart.tx, vec![b'a', b'\r', b'\n', b'b']);
    let mut uart2 = Uart::new();
    uart2.write_str("\r");
    assert_eq!(uart2.tx, vec![b'\r', b'\n']);
    uart2.write_str("xy");
    assert_eq!(uart2.tx, vec![b'\r', b'\n', b'x', b'y']);
}
