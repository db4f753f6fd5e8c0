//! An in-memory UART that follows the register model of `serial`, for
//! exercising the driver without hardware.
use vstd::prelude::*;

use crate::serial::{dlab, Access, SerialPort, UartIo, UartRegs, UartState};

verus! {

/// A simulated UART. Its data register either echoes the last byte written
/// to it (`echo`) or always reads as zero; its line-status register reads as
/// a fixed value.
pub struct SimUart {
    pub regs: UartRegs,
    pub line_status: u8,
    pub echo: bool,
    pub rx: u8,
    pub sent: Ghost<Seq<u8>>,
    pub received: Ghost<Seq<u8>>,
    pub status_reads: Ghost<Seq<u8>>,
    pub accesses: Ghost<Seq<Access>>,
}

impl SimUart {
    /// Whether the data register echoes writes: a data read then returns
    /// `rx`, the last byte written to the data register.
    pub open spec fn echoes(&self) -> bool {
        self.echo
    }

    /// A device with every register zero that has sent and received nothing.
    pub fn new(echo: bool, line_status: u8) -> (r: SimUart)
        ensures
            r.echoes() == echo,
            r.rx == 0,
            r.line_status == line_status,
            forall|p: SerialPort| #[trigger] r.state(p) == (UartState {
                regs: UartRegs { ier: 0, fcr: 0, lcr: 0, mcr: 0, dll: 0, dlm: 0 },
                sent: Seq::empty(),
                received: Seq::empty(),
                status_reads: Seq::empty(),
                accesses: Seq::empty(),
            }),
    {
        SimUart {
            regs: UartRegs { ier: 0, fcr: 0, lcr: 0, mcr: 0, dll: 0, dlm: 0 },
            line_status,
            echo,
            rx: 0,
            sent: Ghost(Seq::empty()),
            received: Ghost(Seq::empty()),
            status_reads: Ghost(Seq::empty()),
            accesses: Ghost(Seq::empty()),
        }
    }

    /// The latched registers.
    pub fn registers(&self) -> (r: UartRegs)
        ensures
            forall|p: SerialPort| r == #[trigger] self.state(p).regs,
    {
        self.regs
    }
}

impl UartIo for SimUart {
    open spec fn state(&self, port: SerialPort) -> UartState {
        UartState {
            regs: self.regs,
            sent: self.sent@,
            received: self.received@,
            status_reads: self.status_reads@,
            accesses: self.accesses@,
        }
    }

    /// A data read returns the last byte written to the data register on an
    /// echoing device (zero before any), and zero on the other kind.
    fn read_reg(&mut self, port: SerialPort, offset: u8) -> (r: u8)
        ensures
            final(self).echo == old(self).echo,
            final(self).rx == old(self).rx,
            offset == 5 ==> r == old(self).line_status,
            offset == 0 && !dlab(old(self).state(port).regs) ==> r == (if old(self).echo {
                old(self).rx
            } else {
                0
            }),
    {
        let latch_open = self.regs.lcr & 0x80 != 0;
        assert(latch_open == dlab(self.regs));
        let b: u8 = if offset == 0 {
            if latch_open {
                self.regs.dll
            } else {
                let d: u8 = if self.echo { self.rx } else { 0 };
                self.received = Ghost(self.received@.push(d));
                d
            }
        } else if offset == 1 {
            if latch_open { self.regs.dlm } else { self.regs.ier }
        } else if offset == 2 {
            // interrupt identification: none pending
            0x01
        } else if offset == 3 {
            self.regs.lcr
        } else if offset == 4 {
            self.regs.mcr
        } else {
            let d = self.line_status;
            self.status_reads = Ghost(self.status_reads@.push(d));
            d
        };
        self.accesses = Ghost(self.accesses@.push(Access::Read { offset, value: b }));
        b
    }

    /// A data write is what an echoing device's next data read returns.
    fn write_reg(&mut self, port: SerialPort, offset: u8, value: u8)
        ensures
            final(self).echo == old(self).echo,
            final(self).line_status == old(self).line_status,
            final(self).rx == (if old(self).echo && offset == 0 && !dlab(old(self).state(port).regs) {
                value
            } else {
                old(self).rx
            }),
    {
        let latch_open = self.regs.lcr & 0x80 != 0;
        assert(latch_open == dlab(self.regs));
        self.accesses = Ghost(self.accesses@.push(Access::Write { offset, value }));
        if offset == 0 {
            if latch_open {
                self.regs.dll = value;
            } else {
                if self.echo {
                    self.rx = value;
                }
                self.sent = Ghost(self.sent@.push(value));
            }
        } else if offset == 1 {
            if latch_open {
                self.regs.dlm = value;
            } else {
                self.regs.ier = value;
            }
        } else if offset == 2 {
            self.regs.fcr = value;
        } else if offset == 3 {
            self.regs.lcr = value;
        } else {
            self.regs.mcr = value;
        }
    }
}

} // verus!
