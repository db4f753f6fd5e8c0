//! Driver for a 16450/8250-class UART.
//!
//! Register offsets from a port's base: 0 data (divisor low while the
//! divisor latch is open), 1 interrupt enable (divisor high while the latch is
//! open), 2 FIFO control (write-only), 3 line control, 4 modem control,
//! 5 line status (read-only).
use vstd::prelude::*;

use crate::error::{KError, KErrorType};

verus! {

/// A serial port of the machine.
#[derive(Clone, Copy, Debug, PartialEq, Eq, Structural)]
pub enum SerialPort {
    COM1,
}

/// The parity mode of a serial line.
#[derive(Clone, Copy, Debug, PartialEq, Eq, Structural)]
pub enum Parity {
    NoParity,
    Odd,
    Even,
    Mark,
    Space,
}

pub const DATA_REG: u8 = 0;
pub const IER_REG: u8 = 1;
pub const FCR_REG: u8 = 2;
pub const LCR_REG: u8 = 3;
pub const MCR_REG: u8 = 4;
pub const LSR_REG: u8 = 5;

/// The programmable registers of one UART, as the device latches them.
#[derive(Clone, Copy, Debug, PartialEq, Eq, Structural)]
pub struct UartRegs {
    pub ier: u8,
    pub fcr: u8,
    pub lcr: u8,
    pub mcr: u8,
    pub dll: u8,
    pub dlm: u8,
}

/// One register access: its offset from the port's base and the byte read or
/// written.
#[derive(Clone, Copy, Debug, PartialEq, Eq, Structural)]
pub enum Access {
    Read { offset: u8, value: u8 },
    Write { offset: u8, value: u8 },
}

/// Everything the driver can observe or change on one port: the latched
/// registers, the bytes handed to the transmitter, the bytes taken from the
/// receiver, the line-status snapshots read so far, and every register access
/// made so far, in order.
pub struct UartState {
    pub regs: UartRegs,
    pub sent: Seq<u8>,
    pub received: Seq<u8>,
    pub status_reads: Seq<u8>,
    pub accesses: Seq<Access>,
}

/// Whether the divisor latch is open (bit 7 of line control).
pub open spec fn dlab(r: UartRegs) -> bool {
    r.lcr & 0x80 != 0
}

/// The 16-bit baud divisor held by the divisor latch.
pub open spec fn divisor_latch(r: UartRegs) -> int {
    r.dlm as int * 256 + r.dll as int
}

/// What writing `value` at `offset` does to the latched registers.
pub open spec fn regs_after_write(r: UartRegs, offset: u8, value: u8) -> UartRegs {
    if offset == 0 {
        if dlab(r) { UartRegs { dll: value, ..r } } else { r }
    } else if offset == 1 {
        if dlab(r) { UartRegs { dlm: value, ..r } } else { UartRegs { ier: value, ..r } }
    } else if offset == 2 {
        UartRegs { fcr: value, ..r }
    } else if offset == 3 {
        UartRegs { lcr: value, ..r }
    } else if offset == 4 {
        UartRegs { mcr: value, ..r }
    } else {
        r
    }
}

/// What writing `value` at `offset` does to a port.
pub open spec fn state_after_write(s: UartState, offset: u8, value: u8) -> UartState {
    UartState {
        regs: regs_after_write(s.regs, offset, value),
        sent: if offset == 0 && !dlab(s.regs) { s.sent.push(value) } else { s.sent },
        accesses: s.accesses.push(Access::Write { offset, value }),
        ..s
    }
}

/// What reading `value` from `offset` does to a port: a data read takes a
/// byte from the receiver, a status read is recorded, others change nothing.
pub open spec fn state_after_read(s: UartState, offset: u8, value: u8) -> UartState {
    let logged = UartState { accesses: s.accesses.push(Access::Read { offset, value }), ..s };
    if offset == 0 && !dlab(s.regs) {
        UartState { received: s.received.push(value), ..logged }
    } else if offset == 5 {
        UartState { status_reads: s.status_reads.push(value), ..logged }
    } else {
        logged
    }
}

/// The value a read at `offset` returns where it reads back a latched
/// register; `None` where it comes from the line (data, status, interrupt
/// identification).
pub open spec fn latched_read(r: UartRegs, offset: u8) -> Option<u8> {
    if offset == 0 {
        if dlab(r) { Some(r.dll) } else { None }
    } else if offset == 1 {
        if dlab(r) { Some(r.dlm) } else { Some(r.ier) }
    } else if offset == 3 {
        Some(r.lcr)
    } else if offset == 4 {
        Some(r.mcr)
    } else {
        None
    }
}

pub open spec fn read_agrees(r: UartRegs, offset: u8, value: u8) -> bool {
    match latched_read(r, offset) {
        Some(v) => value == v,
        None => true,
    }
}

/// Single-byte, ordered access to the registers of the serial ports.
///
/// Each call is one access that is never elided, merged or reordered with
/// the other accesses to the same device.
pub trait UartIo {
    /// The observable state of `port`.
    spec fn state(&self, port: SerialPort) -> UartState;

    /// Reads the register at `offset` from the base of `port`.
    fn read_reg(&mut self, port: SerialPort, offset: u8) -> (r: u8)
        requires
            offset <= 5,
        ensures
            final(self).state(port) == state_after_read(old(self).state(port), offset, r),
            read_agrees(old(self).state(port).regs, offset, r),
            forall|p: SerialPort| p != port ==> #[trigger] final(self).state(p) == old(self).state(p),
    ;

    /// Writes `value` to the register at `offset` from the base of `port`.
    fn write_reg(&mut self, port: SerialPort, offset: u8, value: u8)
        requires
            offset <= 4,
        ensures
            final(self).state(port) == state_after_write(old(self).state(port), offset, value),
            forall|p: SerialPort| p != port ==> #[trigger] final(self).state(p) == old(self).state(p),
    ;
}

/// No port but `port` changed between `before` and `after`.
pub open spec fn others_unchanged<U: UartIo>(before: U, after: U, port: SerialPort) -> bool {
    forall|p: SerialPort| p != port ==> #[trigger] after.state(p) == before.state(p)
}

/// Register value after clearing the bits outside `keep` and setting those of `set`.
pub open spec fn masked(old_value: u8, keep: u8, set: u8) -> u8 {
    (old_value & keep) | set
}

/// The accesses of one read-modify-write of the register at `offset` that
/// held `current`: one read, then one write of `(current & keep) | set`.
pub open spec fn rmw_log(offset: u8, current: u8, keep: u8, set: u8) -> Seq<Access> {
    seq![
        Access::Read { offset, value: current },
        Access::Write { offset, value: masked(current, keep, set) },
    ]
}

/// `s` after one read-modify-write of line control with `keep` and `set`.
pub open spec fn with_lcr(s: UartState, keep: u8, set: u8) -> UartState {
    UartState {
        regs: UartRegs { lcr: masked(s.regs.lcr, keep, set), ..s.regs },
        accesses: s.accesses + rmw_log(LCR_REG, s.regs.lcr, keep, set),
        ..s
    }
}

/// `s` after one read-modify-write of modem control with `keep` and `set`.
pub open spec fn with_mcr(s: UartState, keep: u8, set: u8) -> UartState {
    UartState {
        regs: UartRegs { mcr: masked(s.regs.mcr, keep, set), ..s.regs },
        accesses: s.accesses + rmw_log(MCR_REG, s.regs.mcr, keep, set),
        ..s
    }
}

/// Writes the line-control register as `(current & zero_mask) | value_mask`.
fn write_lcr<U: UartIo>(io: &mut U, port: SerialPort, zero_mask: u8, value_mask: u8)
    ensures
        final(io).state(port) == with_lcr(old(io).state(port), zero_mask, value_mask),
        others_unchanged(*old(io), *final(io), port),
{
    let prev = io.read_reg(port, LCR_REG);
    io.write_reg(port, LCR_REG, (prev & zero_mask) | value_mask);
    assert(io.state(port).accesses =~= old(io).state(port).accesses
        + rmw_log(LCR_REG, old(io).state(port).regs.lcr, zero_mask, value_mask));
}


/// Writes the modem-control register as `(current & zero_mask) | value_mask`.
fn write_mcr<U: UartIo>(io: &mut U, port: SerialPort, zero_mask: u8, value_mask: u8)
    ensures
        final(io).state(port) == with_mcr(old(io).state(port), zero_mask, value_mask),
        others_unchanged(*old(io), *final(io), port),
{
    let prev = io.read_reg(port, MCR_REG);
    io.write_reg(port, MCR_REG, (prev & zero_mask) | value_mask);
    assert(io.state(port).accesses =~= old(io).state(port).accesses
        + rmw_log(MCR_REG, old(io).state(port).regs.mcr, zero_mask, value_mask));
}

/// Writes the FIFO-control register. It is write-only, so the whole byte is
/// replaced: bits not set in `value_mask` are dropped.
fn write_fcr<U: UartIo>(io: &mut U, port: SerialPort, value_mask: u8)
    ensures
        final(io).state(port) == state_after_write(old(io).state(port), FCR_REG, value_mask),
        others_unchanged(*old(io), *final(io), port),
{
    io.write_reg(port, FCR_REG, value_mask);
}

/// Reads the line-status register.
fn get_lsr<U: UartIo>(io: &mut U, port: SerialPort) -> (r: u8)
    ensures
        final(io).state(port) == state_after_read(old(io).state(port), LSR_REG, r),
        others_unchanged(*old(io), *final(io), port),
{
    io.read_reg(port, LSR_REG)
}

/// Opens (`true`) or closes the divisor latch: bit 7 of line control.
fn set_dlab<U: UartIo>(io: &mut U, port: SerialPort, bit: bool)
    ensures
        final(io).state(port) == with_lcr(old(io).state(port), 0x7F, if bit { 0x80 } else { 0 }),
        dlab(final(io).state(port).regs) == bit,
        final(io).state(port).regs.lcr & 0x7F == old(io).state(port).regs.lcr & 0x7F,
        others_unchanged(*old(io), *final(io), port),
{
    let zero_mask: u8 = 0b0111_1111;
    let value_mask: u8 = if bit { 0b1000_0000 } else { 0 };
    write_lcr(io, port, zero_mask, value_mask);
    let ghost l = old(io).state(port).regs.lcr;
    assert(((l & 0x7F) | 0x80) & 0x80 != 0 && ((l & 0x7F) | 0x80) & 0x7F == l & 0x7F) by (bit_vector);
    assert(((l & 0x7F) | 0) & 0x80 == 0 && ((l & 0x7F) | 0) & 0x7F == l & 0x7F) by (bit_vector);
}

/// `s` after `set_divisor(d)`: the latch opened, the low byte written at
/// offset 0, the high byte at offset 1, the latch closed.
pub open spec fn divisor_set(s: UartState, d: u16) -> UartState {
    with_lcr(
        state_after_write(
            state_after_write(with_lcr(s, 0x7F, 0x80), DATA_REG, d as u8),
            IER_REG,
            (d >> 8) as u8,
        ),
        0x7F,
        0,
    )
}

/// Sets the baud divisor (baud = clock / (16 * divisor)): opens the divisor
/// latch, writes the low then the high byte, and closes the latch again,
/// with no other access in between.
pub fn set_divisor<U: UartIo>(io: &mut U, port: SerialPort, divisor: u16)
    ensures
        final(io).state(port) == divisor_set(old(io).state(port), divisor),
        final(io).state(port).sent == old(io).state(port).sent,
        final(io).state(port).accesses == old(io).state(port).accesses + ({
            let opened = masked(old(io).state(port).regs.lcr, 0x7F, 0x80);
            seq![
                Access::Read { offset: LCR_REG, value: old(io).state(port).regs.lcr },
                Access::Write { offset: LCR_REG, value: opened },
                Access::Write { offset: DATA_REG, value: divisor as u8 },
                Access::Write { offset: IER_REG, value: (divisor >> 8) as u8 },
                Access::Read { offset: LCR_REG, value: opened },
                Access::Write { offset: LCR_REG, value: masked(opened, 0x7F, 0) },
            ]
        }),
        final(io).state(port).regs == (UartRegs {
            lcr: old(io).state(port).regs.lcr & 0x7F,
            dll: divisor as u8,
            dlm: (divisor >> 8) as u8,
            ..old(io).state(port).regs
        }),
        divisor_latch(final(io).state(port).regs) == divisor,
        !dlab(final(io).state(port).regs),
        others_unchanged(*old(io), *final(io), port),
{
    set_dlab(io, port, true);
    let ghost l0 = old(io).state(port).regs.lcr;
    assert(((l0 & 0x7F) | 0x80) & 0x80 != 0) by (bit_vector);
    let least_significant_byte = divisor as u8;
    let most_significant_byte = (divisor >> 8) as u8;
    io.write_reg(port, DATA_REG, least_significant_byte);
    io.write_reg(port, IER_REG, most_significant_byte);
    set_dlab(io, port, false);
    assert((((l0 & 0x7F) | 0x80) & 0x7F) | 0 == l0 & 0x7F) by (bit_vector);
    assert((l0 & 0x7F) & 0x80 == 0) by (bit_vector);
    assert(((divisor >> 8) as u8) as u16 * 256 + (divisor as u8) as u16 == divisor) by (bit_vector);
    assert(io.state(port).accesses =~= old(io).state(port).accesses + seq![
        Access::Read { offset: LCR_REG, value: l0 },
        Access::Write { offset: LCR_REG, value: masked(l0, 0x7F, 0x80) },
        Access::Write { offset: DATA_REG, value: divisor as u8 },
        Access::Write { offset: IER_REG, value: (divisor >> 8) as u8 },
        Access::Read { offset: LCR_REG, value: masked(l0, 0x7F, 0x80) },
        Access::Write { offset: LCR_REG, value: masked(masked(l0, 0x7F, 0x80), 0x7F, 0) },
    ]);
}

/// After `set_divisor(d)`, opening the divisor latch again and reading the
/// two divisor registers gives back the bytes of `d`, low then high.
pub proof fn lemma_divisor_read_back(r: UartRegs, d: u16)
    ensures
        ({
            let set = UartRegs { lcr: r.lcr & 0x7F, dll: d as u8, dlm: (d >> 8) as u8, ..r };
            let opened = regs_after_write(set, LCR_REG, set.lcr | 0x80);
            &&& latched_read(opened, DATA_REG) == Some(d as u8)
            &&& latched_read(opened, IER_REG) == Some((d >> 8) as u8)
            &&& (d >> 8) as u8 as int * 256 + d as u8 as int == d
        }),
{
    let l = r.lcr;
    assert(((l & 0x7F) | 0x80) & 0x80 != 0) by (bit_vector);
    assert(((d >> 8) as u8) as u16 * 256 + (d as u8) as u16 == d) by (bit_vector);
}

/// Sets the character width to `(width & 3) + 5` bits: bits 0-1 of line control.
pub fn set_char_width<U: UartIo>(io: &mut U, port: SerialPort, width: u8)
    ensures
        final(io).state(port) == with_lcr(old(io).state(port), 0xFC, width & 0x03),
        final(io).state(port).regs.lcr & 0xFC == old(io).state(port).regs.lcr & 0xFC,
        others_unchanged(*old(io), *final(io), port),
{
    let value_mask = width & 0b0000_0011;
    let zero_mask: u8 = 0b1111_1100;
    write_lcr(io, port, zero_mask, value_mask);
    let ghost l = old(io).state(port).regs.lcr;
    assert(((l & 0xFC) | (width & 0x03)) & 0xFC == l & 0xFC) by (bit_vector);
}

/// Sets the stop bits: one (`false`) or one and a half / two (`true`); bit 2
/// of line control.
pub fn set_stop_bit<U: UartIo>(io: &mut U, port: SerialPort, value: bool)
    ensures
        final(io).state(port) == with_lcr(old(io).state(port), 0xFB, if value { 0x04 } else { 0 }),
        final(io).state(port).regs.lcr & 0xFB == old(io).state(port).regs.lcr & 0xFB,
        others_unchanged(*old(io), *final(io), port),
{
    let zero_mask: u8 = 0b1111_1011;
    let value_mask: u8 = if value { 0b0000_0100 } else { 0 };
    write_lcr(io, port, zero_mask, value_mask);
    let ghost l = old(io).state(port).regs.lcr;
    assert(((l & 0xFB) | 0x04) & 0xFB == l & 0xFB) by (bit_vector);
    assert(((l & 0xFB) | 0) & 0xFB == l & 0xFB) by (bit_vector);
}

/// The parity field (bits 3-5 of line control) for each mode.
pub open spec fn parity_bits(p: Parity) -> u8 {
    match p {
        Parity::NoParity => 0b0000_0000,
        Parity::Odd => 0b0000_1000,
        Parity::Even => 0b0001_1000,
        Parity::Mark => 0b0010_1000,
        Parity::Space => 0b0011_1000,
    }
}

/// Sets the parity mode: bits 3-5 of line control.
pub fn set_parity<U: UartIo>(io: &mut U, port: SerialPort, value: Parity)
    ensures
        final(io).state(port) == with_lcr(old(io).state(port), 0xC7, parity_bits(value)),
        final(io).state(port).regs.lcr & 0xC7 == old(io).state(port).regs.lcr & 0xC7,
        others_unchanged(*old(io), *final(io), port),
{
    let zero_mask: u8 = 0b1100_0111;
    let value_mask: u8 = match value {
        Parity::NoParity => 0b0000_0000,
        Parity::Odd => 0b0000_1000,
        Parity::Even => 0b0001_1000,
        Parity::Mark => 0b0010_1000,
        Parity::Space => 0b0011_1000,
    };
    write_lcr(io, port, zero_mask, value_mask);
    let ghost l = old(io).state(port).regs.lcr;
    assert(value_mask & 0xC7 == 0) by {
        assert(0u8 & 0xC7 == 0) by (bit_vector);
        assert(0x08u8 & 0xC7 == 0) by (bit_vector);
        assert(0x18u8 & 0xC7 == 0) by (bit_vector);
        assert(0x28u8 & 0xC7 == 0) by (bit_vector);
        assert(0x38u8 & 0xC7 == 0) by (bit_vector);
    }
    assert(((l & 0xC7) | value_mask) & 0xC7 == l & 0xC7) by (bit_vector)
        requires
            value_mask & 0xC7 == 0,
    ;
}


/// Enables (`true`) or disables the FIFO buffers. The FIFO-control register
/// is write-only: this call replaces every other bit of it with zero.
pub fn enable_fifo<U: UartIo>(io: &mut U, port: SerialPort, enable: bool)
    ensures
        final(io).state(port) == state_after_write(old(io).state(port), FCR_REG, if enable { 1 } else { 0 }),
        others_unchanged(*old(io), *final(io), port),
{
    let value_mask: u8 = if enable { 1 } else { 0 };
    write_fcr(io, port, value_mask);
}

/// Clears the transmit FIFO. Replaces every other bit of FIFO control with zero.
pub fn clear_transmit_fifo<U: UartIo>(io: &mut U, port: SerialPort)
    ensures
        final(io).state(port) == state_after_write(old(io).state(port), FCR_REG, 0b0000_0100),
        others_unchanged(*old(io), *final(io), port),
{
    write_fcr(io, port, 0b0000_0100);
}

/// Clears the receive FIFO. Replaces every other bit of FIFO control with zero.
pub fn clear_receive_fifo<U: UartIo>(io: &mut U, port: SerialPort)
    ensures
        final(io).state(port) == state_after_write(old(io).state(port), FCR_REG, 0b0000_0010),
        others_unchanged(*old(io), *final(io), port),
{
    write_fcr(io, port, 0b0000_0010);
}

/// Sets how many received bytes raise an interrupt: code `value & 3` selects
/// 1, 4, 8 or 14 bytes (bits 6-7 of FIFO control). Replaces every other bit
/// of FIFO control with zero.
pub fn set_interrupt_trigger_level<U: UartIo>(io: &mut U, port: SerialPort, value: u8)
    ensures
        final(io).state(port) == state_after_write(old(io).state(port), FCR_REG, ((value & 0x03) as int * 64) as u8),
        others_unchanged(*old(io), *final(io), port),
{
    let value_mask = (value & 0b0000_0011) << 6u8;
    assert((value & 0x03) << 6u8 == ((value & 0x03) as int * 64) as u8) by (bit_vector);
    write_fcr(io, port, value_mask);
}

/// Closes the divisor latch, then enables (`true`) only the data-available
/// interrupt, or disables all interrupts.
pub fn enable_interrupts<U: UartIo>(io: &mut U, port: SerialPort, value: bool)
    ensures
        final(io).state(port) == state_after_write(
            with_lcr(old(io).state(port), 0x7F, 0),
            IER_REG,
            if value { 1 } else { 0 },
        ),
        final(io).state(port).regs == (UartRegs {
                lcr: old(io).state(port).regs.lcr & 0x7F,
                ier: if value { 1 } else { 0 },
                ..old(io).state(port).regs
            }),
        others_unchanged(*old(io), *final(io), port),
{
    set_dlab(io, port, false);
    let ghost l0 = old(io).state(port).regs.lcr;
    assert((l0 & 0x7F) | 0 == l0 & 0x7F) by (bit_vector);
    assert((l0 & 0x7F) & 0x80 == 0) by (bit_vector);
    let ier: u8 = if value { 1 } else { 0 };
    io.write_reg(port, IER_REG, ier);
}

/// `s` with the modem-control bits of `bit` set to `value`, the others kept.
pub open spec fn with_modem_bit(s: UartState, keep: u8, bit: u8, value: bool) -> UartState {
    with_mcr(s, keep, if value { bit } else { 0 })
}

/// Sets data terminal ready: bit 0 of modem control.
pub fn set_dtr<U: UartIo>(io: &mut U, port: SerialPort, value: bool)
    ensures
        final(io).state(port) == with_modem_bit(old(io).state(port), 0xFE, 0x01, value),
        others_unchanged(*old(io), *final(io), port),
{
    let value_mask: u8 = if value { 0b0000_0001 } else { 0 };
    write_mcr(io, port, 0b1111_1110, value_mask);
}

/// Sets request to send: bit 1 of modem control.
pub fn set_rts<U: UartIo>(io: &mut U, port: SerialPort, value: bool)
    ensures
        final(io).state(port) == with_modem_bit(old(io).state(port), 0xFD, 0x02, value),
        others_unchanged(*old(io), *final(io), port),
{
    let value_mask: u8 = if value { 0b0000_0010 } else { 0 };
    write_mcr(io, port, 0b1111_1101, value_mask);
}

/// Sets auxiliary output 1: bit 2 of modem control.
pub fn set_out_1<U: UartIo>(io: &mut U, port: SerialPort, value: bool)
    ensures
        final(io).state(port) == with_modem_bit(old(io).state(port), 0xFB, 0x04, value),
        others_unchanged(*old(io), *final(io), port),
{
    let value_mask: u8 = if value { 0b0000_0100 } else { 0 };
    write_mcr(io, port, 0b1111_1011, value_mask);
}

/// Sets auxiliary output 2: bit 3 of modem control.
pub fn set_out_2<U: UartIo>(io: &mut U, port: SerialPort, value: bool)
    ensures
        final(io).state(port) == with_modem_bit(old(io).state(port), 0xF7, 0x08, value),
        others_unchanged(*old(io), *final(io), port),
{
    let value_mask: u8 = if value { 0b0000_1000 } else { 0 };
    write_mcr(io, port, 0b1111_0111, value_mask);
}

/// Sets loopback mode: bit 4 of modem control.
pub fn set_loopback<U: UartIo>(io: &mut U, port: SerialPort, value: bool)
    ensures
        final(io).state(port) == with_modem_bit(old(io).state(port), 0xEF, 0x10, value),
        others_unchanged(*old(io), *final(io), port),
{
    let value_mask: u8 = if value { 0b0001_0000 } else { 0 };
    write_mcr(io, port, 0b1110_1111, value_mask);
}

/// Setting one modem-control bit twice to the same value leaves the
/// registers as setting it once does.
pub proof fn lemma_modem_bit_idempotent(s: UartState, keep: u8, bit: u8, value: bool)
    requires
        keep & bit == 0,
    ensures
        with_modem_bit(with_modem_bit(s, keep, bit, value), keep, bit, value).regs
            == with_modem_bit(s, keep, bit, value).regs,
{
    let m = s.regs.mcr;
    let v: u8 = if value { bit } else { 0 };
    assert(v & keep == 0) by {
        assert(0u8 & keep == 0) by (bit_vector);
        assert(keep & bit == 0 ==> bit & keep == 0) by (bit_vector);
    }
    assert((((m & keep) | v) & keep) | v == (m & keep) | v) by (bit_vector)
        requires
            v & keep == 0,
    ;
}

/// One line-status query: `after` holds one more status snapshot than
/// `before`, and `r` is whether the snapshot has a bit of `mask` set.
pub open spec fn status_query(before: UartState, after: UartState, mask: u8, r: bool) -> bool {
    &&& after.status_reads.len() == before.status_reads.len() + 1
    &&& after == state_after_read(before, LSR_REG, after.status_reads.last())
    &&& r == (after.status_reads.last() & mask != 0)
}

/// Whether a received byte is waiting: bit 0 of a fresh line-status read.
pub fn is_data_ready<U: UartIo>(io: &mut U, port: SerialPort) -> (r: bool)
    ensures
        status_query(old(io).state(port), final(io).state(port), 0x01, r),
        others_unchanged(*old(io), *final(io), port),
{
    (get_lsr(io, port) & 0b0000_0001) != 0
}

/// Whether a received byte was lost: bit 1 of a fresh line-status read.
pub fn is_overrun_error<U: UartIo>(io: &mut U, port: SerialPort) -> (r: bool)
    ensures
        status_query(old(io).state(port), final(io).state(port), 0x02, r),
        others_unchanged(*old(io), *final(io), port),
{
    (get_lsr(io, port) & 0b0000_0010) != 0
}

/// Whether a parity error was seen: bit 2 of a fresh line-status read.
pub fn is_parity_error<U: UartIo>(io: &mut U, port: SerialPort) -> (r: bool)
    ensures
        status_query(old(io).state(port), final(io).state(port), 0x04, r),
        others_unchanged(*old(io), *final(io), port),
{
    (get_lsr(io, port) & 0b0000_0100) != 0
}

/// Whether a framing error was seen: bit 3 of a fresh line-status read.
pub fn is_framing_error<U: UartIo>(io: &mut U, port: SerialPort) -> (r: bool)
    ensures
        status_query(old(io).state(port), final(io).state(port), 0x08, r),
        others_unchanged(*old(io), *final(io), port),
{
    (get_lsr(io, port) & 0b0000_1000) != 0
}

/// Whether a break was received: bit 4 of a fresh line-status read.
pub fn is_break<U: UartIo>(io: &mut U, port: SerialPort) -> (r: bool)
    ensures
        status_query(old(io).state(port), final(io).state(port), 0x10, r),
        others_unchanged(*old(io), *final(io), port),
{
    (get_lsr(io, port) & 0b0001_0000) != 0
}

/// Whether the transmitter holding register is empty: bit 5 of a fresh
/// line-status read.
pub fn is_transmitter_holding_empty<U: UartIo>(io: &mut U, port: SerialPort) -> (r: bool)
    ensures
        status_query(old(io).state(port), final(io).state(port), 0x20, r),
        others_unchanged(*old(io), *final(io), port),
{
    (get_lsr(io, port) & 0b0010_0000) != 0
}

/// Whether the transmitter is idle: bit 6 of a fresh line-status read.
pub fn is_transmitter_empty<U: UartIo>(io: &mut U, port: SerialPort) -> (r: bool)
    ensures
        status_query(old(io).state(port), final(io).state(port), 0x40, r),
        others_unchanged(*old(io), *final(io), port),
{
    (get_lsr(io, port) & 0b0100_0000) != 0
}

/// Whether an error is pending in the receive FIFO: bit 7 of a fresh
/// line-status read.
pub fn is_impending_error<U: UartIo>(io: &mut U, port: SerialPort) -> (r: bool)
    ensures
        status_query(old(io).state(port), final(io).state(port), 0x80, r),
        others_unchanged(*old(io), *final(io), port),
{
    (get_lsr(io, port) & 0b1000_0000) != 0
}

/// Writes one byte to the data register, without checking that the
/// transmitter is ready.
pub fn write_byte<U: UartIo>(io: &mut U, port: SerialPort, data: u8)
    ensures
        final(io).state(port) == state_after_write(old(io).state(port), DATA_REG, data),
        others_unchanged(*old(io), *final(io), port),
{
    io.write_reg(port, DATA_REG, data);
}

/// Reads one byte from the data register, without checking that one is ready.
pub fn read_byte<U: UartIo>(io: &mut U, port: SerialPort) -> (r: u8)
    ensures
        final(io).state(port) == state_after_read(old(io).state(port), DATA_REG, r),
        read_agrees(old(io).state(port).regs, DATA_REG, r),
        others_unchanged(*old(io), *final(io), port),
{
    io.read_reg(port, DATA_REG)
}


/// The divisor that `configure_default` programs.
pub const DEFAULT_DIVISOR: u16 = 3;

/// The byte sent and expected back during the loopback self-test.
pub const LOOPBACK_TEST_BYTE: u8 = 0xAE;

/// The registers `configure_default` leaves behind, from the registers `r`
/// it started from and whether the loopback self-test `passed`.
pub open spec fn configured_regs(r: UartRegs, passed: bool) -> UartRegs {
    UartRegs {
        ier: 0x01,
        fcr: 0xC0,
        lcr: (r.lcr & 0x40) | 0x03,
        mcr: if passed { (r.mcr & 0xE0) | 0x0F } else { (r.mcr & 0xEC) | 0x13 },
        dll: 0x03,
        dlm: 0x00,
    }
}

proof fn lemma_default_lcr(l: u8)
    by (bit_vector)
    ensures
        masked(masked(masked((l & 0x7F) & 0x7F, 0xFC, 3), 0xC7, 0), 0xFB, 0) & 0x7F
            == (l & 0x40) | 0x03,
        ((l & 0x40) | 0x03) & 0x80 == 0,
{
}

proof fn lemma_default_mcr(m: u8)
    by (bit_vector)
    ensures
        masked(masked(masked(m, 0xFE, 0x01), 0xFD, 0x02), 0xEF, 0x10) == (m & 0xEC) | 0x13,
        masked(masked(masked((m & 0xEC) | 0x13, 0xEF, 0), 0xFB, 0x04), 0xF7, 0x08)
            == (m & 0xE0) | 0x0F,
{
}

/// `s` after each step of `configure_default`, in order, where `echoed` is
/// the byte read back during the loopback self-test.
pub open spec fn configured_state(s: UartState, echoed: u8) -> UartState {
    let interrupts_off = state_after_write(with_lcr(s, 0x7F, 0), IER_REG, 0);
    let baud_set = divisor_set(interrupts_off, DEFAULT_DIVISOR);
    let framing_set = with_lcr(with_lcr(with_lcr(baud_set, 0xFC, 0x03), 0xC7, 0), 0xFB, 0);
    let fifo_ready = state_after_write(
        state_after_write(state_after_write(framing_set, FCR_REG, 0x01), FCR_REG, 0x02),
        FCR_REG,
        0x04,
    );
    let trigger_set = state_after_write(fifo_ready, FCR_REG, 0xC0);
    let interrupts_on = state_after_write(with_lcr(trigger_set, 0x7F, 0), IER_REG, 1);
    let handshake = with_mcr(with_mcr(interrupts_on, 0xFE, 0x01), 0xFD, 0x02);
    let loopback = with_mcr(handshake, 0xEF, 0x10);
    let tested = state_after_read(
        state_after_write(loopback, DATA_REG, LOOPBACK_TEST_BYTE),
        DATA_REG,
        echoed,
    );
    if echoed == LOOPBACK_TEST_BYTE {
        with_mcr(with_mcr(with_mcr(tested, 0xEF, 0), 0xFB, 0x04), 0xF7, 0x08)
    } else {
        tested
    }
}

/// Brings `port` to a known configuration and tests it in loopback:
/// interrupts off, divisor 3, 8 data bits, no parity, one stop bit, FIFOs on
/// and cleared, trigger level 14 bytes, data-available interrupt on, DTR and
/// RTS asserted, loopback on; then one byte is sent and read back. On a
/// mismatch the port is left in loopback and a `HardwareError` is returned;
/// otherwise loopback is turned off and both auxiliary outputs are asserted.
pub fn configure_default<U: UartIo>(io: &mut U, port: SerialPort) -> (r: Result<(), KError<'static>>)
    ensures
        final(io).state(port) == configured_state(
            old(io).state(port),
            final(io).state(port).received.last(),
        ),
        final(io).state(port).sent == old(io).state(port).sent.push(LOOPBACK_TEST_BYTE),
        final(io).state(port).received.len() == old(io).state(port).received.len() + 1,
        final(io).state(port).received.drop_last() == old(io).state(port).received,
        final(io).state(port).status_reads == old(io).state(port).status_reads,
        r.is_ok() <==> final(io).state(port).received.last() == LOOPBACK_TEST_BYTE,
        final(io).state(port).regs == configured_regs(old(io).state(port).regs, r.is_ok()),
        r matches Err(e) ==> e.error_type == KErrorType::HardwareError,
        others_unchanged(*old(io), *final(io), port),
{
    let ghost s0 = old(io).state(port);
    enable_interrupts(io, port, false);
    set_divisor(io, port, DEFAULT_DIVISOR);
    set_char_width(io, port, 3);
    assert(3u8 & 0x03 == 3) by (bit_vector);
    set_parity(io, port, Parity::NoParity);
    set_stop_bit(io, port, false);

    enable_fifo(io, port, true);
    clear_receive_fifo(io, port);
    clear_transmit_fifo(io, port);
    set_interrupt_trigger_level(io, port, 3);
    assert((3u8 & 0x03) as int * 64 == 0xC0) by (bit_vector);
    enable_interrupts(io, port, true);
    proof {
        lemma_default_lcr(s0.regs.lcr);
    }
    assert(io.state(port).regs.lcr == (s0.regs.lcr & 0x40) | 0x03);
    set_dtr(io, port, true);
    set_rts(io, port, true);
    set_loopback(io, port, true);
    proof {
        lemma_default_mcr(s0.regs.mcr);
    }
    assert(io.state(port).regs == configured_regs(s0.regs, false));

    write_byte(io, port, LOOPBACK_TEST_BYTE);
    let echoed = read_byte(io, port);
    if echoed != LOOPBACK_TEST_BYTE {
        return Err(KError::new(KErrorType::HardwareError, "loopback test failed"));
    }

    set_loopback(io, port, false);
    set_out_1(io, port, true);
    set_out_2(io, port, true);
    assert(io.state(port).regs == configured_regs(s0.regs, true));
    Ok(())
}

} // verus!
