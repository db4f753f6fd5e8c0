use kdrivers::error::KErrorType;
use kdrivers::serial::{
    clear_receive_fifo, clear_transmit_fifo, configure_default, enable_fifo, enable_interrupts,
    is_break, is_data_ready, is_framing_error, is_impending_error, is_overrun_error,
    is_parity_error, is_transmitter_empty, is_transmitter_holding_empty, read_byte,
    set_char_width, set_divisor, set_dtr, set_interrupt_trigger_level, set_loopback, set_out_1,
    set_out_2, set_parity, set_rts, set_stop_bit, write_byte, Parity, SerialPort, UartIo,
};
use kdrivers::sim_uart::SimUart;

const PORT: SerialPort = SerialPort::COM1;

fn device_with_lcr(lcr: u8) -> SimUart {
    let mut sim = SimUart::new(true, 0);
    sim.write_reg(PORT, 3, lcr);
    sim
}

fn device_with_mcr(mcr: u8) -> SimUart {
    let mut sim = SimUart::new(true, 0);
    sim.write_reg(PORT, 4, mcr);
    sim
}

#[test]
fn char_width_keeps_other_line_control_bits() {
    for start in [0x00u8, 0xFF, 0x5A, 0xA5] {
        for width in 0u8..8 {
            let mut sim = device_with_lcr(start);
            set_char_width(&mut sim, PORT, width);
            let lcr = sim.registers().lcr;
            assert_eq!(lcr & 0xFC, start & 0xFC);
            assert_eq!(lcr & 0x03, width & 0x03);
        }
    }
}

#[test]
fn char_width_code_eight_wraps_to_five_bits() {
    let mut sim = device_with_lcr(0x03);
    set_char_width(&mut sim, PORT, 8);
    assert_eq!(sim.registers().lcr, 0x00);
}

#[test]
fn stop_bit_keeps_other_line_control_bits() {
    for start in [0x00u8, 0xFF, 0x83, 0x3B] {
        let mut sim = device_with_lcr(start);
        set_stop_bit(&mut sim, PORT, true);
        assert_eq!(sim.registers().lcr, start | 0x04);
        set_stop_bit(&mut sim, PORT, false);
        assert_eq!(sim.registers().lcr, start & !0x04);
    }
}

#[test]
fn stop_bit_keeps_divisor_latch_and_width() {
    let mut sim = device_with_lcr(0x83);
    set_stop_bit(&mut sim, PORT, false);
    assert_eq!(sim.registers().lcr, 0x83);
}

#[test]
fn parity_sets_only_parity_field() {
    let cases = [
        (Parity::NoParity, 0x00u8),
        (Parity::Odd, 0x08),
        (Parity::Even, 0x18),
        (Parity::Mark, 0x28),
        (Parity::Space, 0x38),
    ];
    for start in [0x00u8, 0xFF, 0xC7, 0x38] {
        for (mode, bits) in cases {
            let mut sim = device_with_lcr(start);
            set_parity(&mut sim, PORT, mode);
            assert_eq!(sim.registers().lcr, (start & 0xC7) | bits);
        }
    }
}

#[test]
fn divisor_round_trips_and_closes_latch() {
    for d in [0u16, 1, 3, 0x00FF, 0x0100, 0x1234, 0xFFFF] {
        let mut sim = device_with_lcr(0x1B);
        set_divisor(&mut sim, PORT, d);
        let regs = sim.registers();
        assert_eq!(((regs.dlm as u16) << 8) | regs.dll as u16, d);
        assert_eq!(regs.lcr & 0x80, 0);
        assert_eq!(regs.lcr, 0x1B);
    }
}

#[test]
fn divisor_read_through_latch() {
    let mut sim = SimUart::new(true, 0);
    set_divisor(&mut sim, PORT, 0xBEEF);
    sim.write_reg(PORT, 3, 0x80);
    let low = sim.read_reg(PORT, 0);
    let high = sim.read_reg(PORT, 1);
    assert_eq!(((high as u16) << 8) | low as u16, 0xBEEF);
}

#[test]
fn divisor_does_not_touch_interrupt_enable() {
    let mut sim = SimUart::new(true, 0);
    enable_interrupts(&mut sim, PORT, true);
    set_divisor(&mut sim, PORT, 0x0201);
    assert_eq!(sim.registers().ier, 1);
}

#[test]
fn fifo_control_writes_replace_whole_register() {
    let mut sim = SimUart::new(true, 0);
    enable_fifo(&mut sim, PORT, true);
    assert_eq!(sim.registers().fcr, 0x01);
    clear_receive_fifo(&mut sim, PORT);
    assert_eq!(sim.registers().fcr, 0x02);
    clear_transmit_fifo(&mut sim, PORT);
    assert_eq!(sim.registers().fcr, 0x04);
    enable_fifo(&mut sim, PORT, false);
    assert_eq!(sim.registers().fcr, 0x00);
}

#[test]
fn trigger_level_codes() {
    let expected = [0x00u8, 0x40, 0x80, 0xC0, 0x00, 0xC0];
    for (code, want) in [0u8, 1, 2, 3, 4, 0xFF].into_iter().zip(expected) {
        let mut sim = SimUart::new(true, 0);
        set_interrupt_trigger_level(&mut sim, PORT, code);
        assert_eq!(sim.registers().fcr, want);
    }
}

#[test]
fn interrupts_close_latch_and_write_enable_register() {
    let mut sim = device_with_lcr(0x83);
    enable_interrupts(&mut sim, PORT, true);
    assert_eq!(sim.registers().lcr, 0x03);
    assert_eq!(sim.registers().ier, 1);
    assert_eq!(sim.registers().dlm, 0);
    enable_interrupts(&mut sim, PORT, false);
    assert_eq!(sim.registers().ier, 0);
}

#[test]
fn modem_setters_touch_one_bit_each() {
    let setters: [(fn(&mut SimUart, SerialPort, bool), u8); 5] = [
        (set_dtr::<SimUart>, 0x01),
        (set_rts::<SimUart>, 0x02),
        (set_out_1::<SimUart>, 0x04),
        (set_out_2::<SimUart>, 0x08),
        (set_loopback::<SimUart>, 0x10),
    ];
    for start in [0x00u8, 0xFF, 0xA5, 0x5A] {
        for (setter, bit) in setters {
            let mut sim = device_with_mcr(start);
            setter(&mut sim, PORT, true);
            assert_eq!(sim.registers().mcr, start | bit);
            setter(&mut sim, PORT, false);
            assert_eq!(sim.registers().mcr, start & !bit);
        }
    }
}

#[test]
fn modem_setters_idempotent() {
    let setters: [fn(&mut SimUart, SerialPort, bool); 5] = [
        set_dtr::<SimUart>,
        set_rts::<SimUart>,
        set_out_1::<SimUart>,
        set_out_2::<SimUart>,
        set_loopback::<SimUart>,
    ];
    for start in [0x00u8, 0xFF, 0x3C] {
        for setter in setters {
            for value in [false, true] {
                let mut once = device_with_mcr(start);
                setter(&mut once, PORT, value);
                let mut twice = device_with_mcr(start);
                setter(&mut twice, PORT, value);
                setter(&mut twice, PORT, value);
                assert_eq!(once.registers(), twice.registers());
            }
        }
    }
}

#[test]
fn status_queries_test_their_bit() {
    let queries: [(fn(&mut SimUart, SerialPort) -> bool, u8); 8] = [
        (is_data_ready::<SimUart>, 0x01),
        (is_overrun_error::<SimUart>, 0x02),
        (is_parity_error::<SimUart>, 0x04),
        (is_framing_error::<SimUart>, 0x08),
        (is_break::<SimUart>, 0x10),
        (is_transmitter_holding_empty::<SimUart>, 0x20),
        (is_transmitter_empty::<SimUart>, 0x40),
        (is_impending_error::<SimUart>, 0x80),
    ];
    for (query, bit) in queries {
        let mut only = SimUart::new(true, bit);
        assert!(query(&mut only, PORT));
        let mut others = SimUart::new(true, !bit);
        assert!(!query(&mut others, PORT));
    }
}

#[test]
fn byte_transfer_in_echo_device() {
    let mut sim = SimUart::new(true, 0);
    write_byte(&mut sim, PORT, 0x5C);
    assert_eq!(read_byte(&mut sim, PORT), 0x5C);
    let mut dead = SimUart::new(false, 0);
    write_byte(&mut dead, PORT, 0x5C);
    assert_eq!(read_byte(&mut dead, PORT), 0x00);
}

#[test]
fn configure_default_passes_on_echoing_device() {
    let mut sim = SimUart::new(true, 0);
    assert!(configure_default(&mut sim, PORT).is_ok());
    let regs = sim.registers();
    assert_eq!(regs.mcr & 0x10, 0);
    assert_eq!(regs.mcr & 0x04, 0x04);
    assert_eq!(regs.mcr & 0x08, 0x08);
    assert_eq!(regs.mcr, 0x0F);
    assert_eq!(regs.lcr, 0x03);
    assert_eq!(regs.ier, 0x01);
    assert_eq!(regs.fcr, 0xC0);
    assert_eq!((regs.dll, regs.dlm), (3, 0));
}

#[test]
fn configure_default_keeps_unrelated_bits() {
    let mut sim = SimUart::new(true, 0);
    sim.write_reg(PORT, 3, 0xFF);
    sim.write_reg(PORT, 4, 0xE0);
    assert!(configure_default(&mut sim, PORT).is_ok());
    assert_eq!(sim.registers().lcr, 0x43);
    assert_eq!(sim.registers().mcr, 0xEF);
}

#[test]
fn configure_default_fails_on_silent_device() {
    let mut sim = SimUart::new(false, 0);
    let err = configure_default(&mut sim, PORT).unwrap_err();
    assert_eq!(err.error_type(), KErrorType::HardwareError);
    assert_eq!(err.message(), "loopback test failed");
    let regs = sim.registers();
    assert_eq!(regs.mcr & 0x10, 0x10);
    assert_eq!(regs.mcr & 0x0C, 0x00);
    assert_eq!(regs.mcr, 0x13);
}
