use pico_os::interrupts::{
    interrupt_from_num, interrupt_num, nvic_iser_address, vtor_address, Interrupt, Ppb,
    VectorTable, NVIC_ISER0, PPB_BASE_NON_SECURE, PPB_BASE_SECURE, VECTOR_TABLE_LOCK, VTOR_OFFSET,
};
use pico_os::spinlocks::{Spinlock, SpinlockPool};

fn boot_image_with(value: u32) -> Vec<u32> {
    let mut image = Vec::new();
    for i in 0..96u32 {
        image.push(value.wrapping_add(i));
    }
    image
}

#[test]
fn test_interrupt_ordinals() {
    assert_eq!(interrupt_num(Interrupt::TIMER0_IRQ_0), 0);
    assert_eq!(interrupt_num(Interrupt::PWM_IRQ_WRAP_0), 8);
    assert_eq!(interrupt_num(Interrupt::USBCTRL_IRQ), 14);
    assert_eq!(interrupt_num(Interrupt::SPI1_IRQ), 32);
    assert_eq!(interrupt_num(Interrupt::UART0_IRQ), 33);
    assert_eq!(interrupt_num(Interrupt::UART1_IRQ), 34);
    assert_eq!(interrupt_num(Interrupt::POWMAN_IRQ_TIMER), 45);
    assert_eq!(interrupt_num(Interrupt::SPAREIRQ_IRQ_5), 51);
}

#[test]
fn test_interrupt_ordinal_round_trip() {
    for k in 0..52 {
        let irq = interrupt_from_num(k);
        assert_eq!(interrupt_num(irq), k);
    }
    assert_eq!(interrupt_from_num(0), Interrupt::TIMER0_IRQ_0);
    assert_eq!(interrupt_from_num(33), Interrupt::UART0_IRQ);
    assert_eq!(interrupt_from_num(51), Interrupt::SPAREIRQ_IRQ_5);
}

#[test]
fn test_bootstrap_copies_reserved_entries() {
    let image = boot_image_with(0x1000_0100);
    let mut vt = VectorTable::new(image.clone(), 0x2000_0000);
    for i in 0..96 {
        assert_eq!(vt.ram[i], 0);
    }
    vt.copy_vector_table_to_ram();
    for i in 0..16 {
        assert_eq!(vt.ram[i], image[i]);
    }
    for i in 0..96 {
        assert_eq!(vt.ram[i], image[i]);
    }
    assert_eq!(vt.boot_image, image);
}

#[test]
fn test_bootstrap_again_discards_installed_handlers() {
    let image = boot_image_with(0x1000_0100);
    let mut vt = VectorTable::new(image.clone(), 0x2000_0000);
    let mut ppb = Ppb::new();
    vt.copy_vector_table_to_ram();
    vt.set_irq_handler(&mut ppb, Interrupt::UART0_IRQ, 0xdead_0000);
    assert_eq!(vt.ram[16 + 33], 0xdead_0000);
    vt.copy_vector_table_to_ram();
    assert_eq!(vt.ram[16 + 33], image[16 + 33]);
}

#[test]
fn test_install_handler_writes_exactly_one_slot() {
    let image = boot_image_with(0x1000_0100);
    let mut vt = VectorTable::new(image, 0x2000_0000);
    let mut ppb = Ppb::new();
    vt.copy_vector_table_to_ram();
    let before = vt.ram.clone();
    vt.set_irq_handler(&mut ppb, Interrupt::UART0_IRQ, 0x2000_9001);
    for i in 0..96 {
        if i == 16 + 33 {
            assert_eq!(vt.ram[i], 0x2000_9001);
        } else {
            assert_eq!(vt.ram[i], before[i]);
        }
    }
}

#[test]
fn test_install_handler_activates_table() {
    let image = boot_image_with(0);
    let mut vt = VectorTable::new(image, 0x2000_0080);
    let mut ppb = Ppb::new();
    vt.copy_vector_table_to_ram();
    assert_eq!(ppb.vtor_read(), 0x1000_0000);
    vt.set_irq_handler(&mut ppb, Interrupt::TIMER0_IRQ_0, 0x2000_9001);
    assert_eq!(ppb.vtor_read(), 0x2000_0080);
}

#[test]
fn test_vtor_write_masks_low_bits() {
    // An already aligned address is kept; a misaligned one drops to the
    // nearest lower 128-byte boundary.
    let mut ppb = Ppb::new();
    ppb.vtor_write(0x2000_1080);
    assert_eq!(ppb.vtor_read(), 0x2000_1080);
    ppb.vtor_write(0x2000_10FF);
    assert_eq!(ppb.vtor_read(), 0x2000_1080);
}

#[test]
fn test_vtor_write_selects_security_aperture() {
    let mut ppb = Ppb::new();
    assert!(ppb.is_secure());
    ppb.vtor_write(0x2000_0100);
    assert_eq!(ppb.vtor_secure, 0x2000_0100);
    assert_eq!(ppb.vtor_non_secure, 0x1000_0000);

    // Bit 0 of the status word set: non-secure world.
    ppb.control = 1;
    assert!(!ppb.is_secure());
    ppb.vtor_write(0x2000_0200);
    assert_eq!(ppb.vtor_non_secure, 0x2000_0200);
    assert_eq!(ppb.vtor_secure, 0x2000_0100);
    assert_eq!(ppb.vtor_read(), 0x2000_0200);
}

#[test]
fn test_register_addresses() {
    assert_eq!(vtor_address(true), PPB_BASE_SECURE + VTOR_OFFSET);
    assert_eq!(vtor_address(false), PPB_BASE_NON_SECURE + VTOR_OFFSET);
    assert_eq!(vtor_address(true), 0xe000_ed08);
    assert_eq!(nvic_iser_address(0), PPB_BASE_SECURE + NVIC_ISER0);
    assert_eq!(nvic_iser_address(31), PPB_BASE_SECURE + NVIC_ISER0);
    assert_eq!(nvic_iser_address(33), PPB_BASE_SECURE + NVIC_ISER0 + 4);
}

#[test]
fn test_nvic_enable_sets_one_bit() {
    let mut ppb = Ppb::new();
    assert_eq!(ppb.iser, vec![0, 0]);
    // Ordinal 33 lives in register 1, bit 1.
    ppb.nvic_enable(Interrupt::UART0_IRQ);
    assert_eq!(ppb.iser, vec![0, 0b10]);
    // Ordinal 0 lives in register 0, bit 0.
    ppb.nvic_enable(Interrupt::TIMER0_IRQ_0);
    assert_eq!(ppb.iser, vec![0b1, 0b10]);
    // Enabling again leaves the bank as it is.
    ppb.nvic_enable(Interrupt::UART0_IRQ);
    assert_eq!(ppb.iser, vec![0b1, 0b10]);
}

#[test]
fn test_dispatch_requires_enable_and_active_table() {
    let image = boot_image_with(0x1000_0100);
    let mut vt = VectorTable::new(image, 0x2000_0080);
    let mut ppb = Ppb::new();
    vt.copy_vector_table_to_ram();
    // Installed but not enabled: nothing runs.
    vt.set_irq_handler(&mut ppb, Interrupt::UART0_IRQ, 0x2000_9001);
    assert_eq!(vt.dispatch(&ppb, Interrupt::UART0_IRQ), None);
    // Enabled but table-base register pointing elsewhere: not dispatched
    // through this table.
    ppb.nvic_enable(Interrupt::UART0_IRQ);
    ppb.vtor_write(0x1000_0000);
    assert_eq!(vt.dispatch(&ppb, Interrupt::UART0_IRQ), None);
}

#[test]
fn test_guarded_install_serializes_on_the_lock() {
    let image = boot_image_with(0x1000_0100);
    let mut vt = VectorTable::new(image, 0x2000_0080);
    let mut ppb = Ppb::new();
    let mut pool = SpinlockPool::new();
    // While another holder owns the reserved line, installation declines
    // and changes nothing.
    let holder = Spinlock::<VECTOR_TABLE_LOCK>::try_claim(&mut pool).unwrap();
    let before = vt.ram.clone();
    assert!(!vt.set_irq_handler_guarded(&mut ppb, &mut pool, Interrupt::UART0_IRQ, 0x2000_9001));
    assert_eq!(vt.ram, before);
    assert_eq!(ppb.vtor_read(), 0x1000_0000);
    // Once the line is free the installation goes through, and the line is
    // free again afterwards.
    holder.release(&mut pool);
    assert!(vt.set_irq_handler_guarded(&mut ppb, &mut pool, Interrupt::UART0_IRQ, 0x2000_9001));
    assert_eq!(vt.ram[16 + 33], 0x2000_9001);
    assert_eq!(ppb.vtor_read(), 0x2000_0080);
    assert!(pool.lines[VECTOR_TABLE_LOCK]);
}

#[test]
fn test_end_to_end_install_enable_fire() {
    // Bootstrap the table, install a handler for the receive interrupt,
    // enable it at the controller, fire it, and check which handler ran.
    let image = boot_image_with(0x1000_0100);
    let mut vt = VectorTable::new(image, 0x2000_0080);
    let mut ppb = Ppb::new();
    vt.copy_vector_table_to_ram();
    let handler: u32 = 0x2000_9001;
    vt.set_irq_handler(&mut ppb, Interrupt::UART0_IRQ, handler);
    ppb.nvic_enable(Interrupt::UART0_IRQ);
    let ran = vt.dispatch(&ppb, Interrupt::UART0_IRQ);
    assert_eq!(ran, Some(handler));
    // A different, never-enabled line still dispatches nothing.
    assert_eq!(vt.dispatch(&ppb, Interrupt::UART1_IRQ), None);
}
