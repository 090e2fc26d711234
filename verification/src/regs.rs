//! The mini UART's register block, modelled as plain values.
//!
//! Each named constant below is one bit-field of the real controller: its
//! position and width are fixed by the hardware and must be kept bit-for-bit.
//! Two addresses of the block are aliased — they mean different things
//! depending on the access direction — so [`RegisterBlock`] exposes them only
//! through distinct read-view and write-view accessors, never through a single
//! bidirectional path.

use vstd::prelude::*;

verus! {

// Mux/enable pair: one bit per peripheral that may own the shared signal pins.
pub const MUX_UART: u32 = 0x1;
pub const MUX_SPI1: u32 = 0x2;
pub const MUX_SPI2: u32 = 0x4;

// Interrupt-enable register: one bit per interrupt source.
pub const IER_RECEIVED_DATA_AVAILABLE: u32 = 0x1;
pub const IER_TRANSMITTER_HOLDING_EMPTY: u32 = 0x2;
pub const IER_RECEIVER_LINE_STATUS_CHANGE: u32 = 0x4;
pub const IER_MODEM_STATUS_CHANGE: u32 = 0x8;

// Interrupt-identification register (the read-view of an aliased address).
pub const IIR_NOT_PENDING: u32 = 0x1;
pub const IIR_IDENTIFICATION_MASK: u32 = 0x6;
pub const IIR_IDENTIFICATION_SHIFT: u32 = 1;
pub const IIR_FIFO_MASK: u32 = 0xc0;
pub const IIR_FIFO_SHIFT: u32 = 6;
pub const IIR_FIFO_NONE: u32 = 0x0;
pub const IIR_FIFO_UNUSABLE: u32 = 0x2;
pub const IIR_FIFO_ENABLED: u32 = 0x3;

// FIFO-control register (the write-view of the same aliased address).
pub const FCR_CLEAR_RECEIVE_FIFO: u32 = 0x2;
pub const FCR_CLEAR_TRANSMIT_FIFO: u32 = 0x4;

// Line-control register: word length, stop bits, parity, break.
pub const LCR_DATA_WORD_LENGTH_MASK: u32 = 0x3;
pub const LCR_DATA_WORD_LENGTH_7: u32 = 0x0;
pub const LCR_DATA_WORD_LENGTH_8: u32 = 0x3;
pub const LCR_STOP_BITS: u32 = 0x4;
pub const LCR_PARITY_ENABLE: u32 = 0x8;
pub const LCR_PARITY_MODE_MASK: u32 = 0x30;
pub const LCR_PARITY_MODE_SHIFT: u32 = 4;
pub const LCR_BREAK_SIGNAL: u32 = 0x40;

// Modem-control register.
pub const MCR_REQUEST_TO_SEND: u32 = 0x2;

// Line-status register (read-only status flags).
pub const LSR_DATA_AVAILABLE: u32 = 0x1;
pub const LSR_OVERRUN_ERROR: u32 = 0x2;
pub const LSR_PARITY_ERROR: u32 = 0x4;
pub const LSR_FRAMING_ERROR: u32 = 0x8;
pub const LSR_BREAK_RECEIVED: u32 = 0x10;
pub const LSR_THR_EMPTY: u32 = 0x20;
pub const LSR_THR_EMPTY_LINE_IDLE: u32 = 0x40;
pub const LSR_ERRONEOUS_DATA_IN_FIFO: u32 = 0x80;

// Auxiliary control register.
pub const CNTL_RECEIVER_ENABLE: u32 = 0x1;
pub const CNTL_TRANSMITTER_ENABLE: u32 = 0x2;

// Baud-rate derivation: the divisor programmed into the hardware is
// floor(input clock / 8 / target baud rate).
pub const CLOCK_HZ: u32 = 25_000_000;
pub const TARGET_BAUD: u32 = 115_200;
pub const BAUD_DIVISOR: u32 = CLOCK_HZ / 8 / TARGET_BAUD;

/// Mathematical state of the register block: every register as the value it
/// holds, with the two aliased addresses split into their read-view and
/// write-view halves. The transmit-holding write-view is kept as the full
/// transcript of bytes written through it, oldest first, so that contracts
/// can speak of exactly what was sent and in what order.
#[verifier::ext_equal]
pub ghost struct RegsView {
    /// Mux interrupt-pending half of the mux/enable pair.
    pub irq: u32,
    /// Mux enable half: which peripheral owns the shared signal pins.
    pub enables: u32,
    /// Receive-buffer read-view: the data byte the hardware presents.
    pub rbr: u8,
    /// Transmit-holding write-view: every byte written, in order.
    pub thr: Seq<u8>,
    /// Interrupt-enable register.
    pub ier: u32,
    /// Interrupt-identification read-view.
    pub iir: u32,
    /// FIFO-control write-view: the value most recently written.
    pub fcr: u32,
    /// Line-control register.
    pub lcr: u32,
    /// Modem-control register.
    pub mcr: u32,
    /// Line-status register (read-only flags).
    pub lsr: u32,
    /// Modem-status register (read-only flags).
    pub msr: u32,
    /// Scratch register.
    pub scratch: u32,
    /// Auxiliary control register.
    pub control: u32,
    /// Auxiliary status register.
    pub status: u32,
    /// Baud-rate divisor register.
    pub baud: u32,
}

/// The register block in its power-on state: everything cleared, except that
/// an idle transmitter reports its holding slot empty and the line idle.
pub open spec fn reset_state() -> RegsView {
    RegsView {
        irq: 0,
        enables: 0,
        rbr: 0,
        thr: Seq::empty(),
        ier: 0,
        iir: 0,
        fcr: 0,
        lcr: 0,
        mcr: 0,
        lsr: LSR_THR_EMPTY | LSR_THR_EMPTY_LINE_IDLE,
        msr: 0,
        scratch: 0,
        control: 0,
        status: 0,
        baud: 0,
    }
}

/// A simulated register block standing in for the memory-mapped block that
/// sits at the controller's fixed physical base address. Registers are held
/// as plain values; the accessors mirror the hardware's access paths, and the
/// `device_` operations play the part of the wire side of the peripheral.
pub struct RegisterBlock {
    irq: u32,
    enables: u32,
    rbr: u8,
    thr: Vec<u8>,
    ier: u32,
    iir: u32,
    fcr: u32,
    lcr: u32,
    mcr: u32,
    lsr: u32,
    msr: u32,
    scratch: u32,
    control: u32,
    status: u32,
    baud: u32,
}

impl View for RegisterBlock {
    type V = RegsView;

    closed spec fn view(&self) -> RegsView {
        RegsView {
            irq: self.irq,
            enables: self.enables,
            rbr: self.rbr,
            thr: self.thr@,
            ier: self.ier,
            iir: self.iir,
            fcr: self.fcr,
            lcr: self.lcr,
            mcr: self.mcr,
            lsr: self.lsr,
            msr: self.msr,
            scratch: self.scratch,
            control: self.control,
            status: self.status,
            baud: self.baud,
        }
    }
}

impl RegisterBlock {
    /// A register block in its power-on state.
    pub fn new() -> (r: RegisterBlock)
        ensures
            r@ == reset_state(),
    {
        let r = RegisterBlock {
            irq: 0,
            enables: 0,
            rbr: 0,
            thr: Vec::new(),
            ier: 0,
            iir: 0,
            fcr: 0,
            lcr: 0,
            mcr: 0,
            lsr: LSR_THR_EMPTY | LSR_THR_EMPTY_LINE_IDLE,
            msr: 0,
            scratch: 0,
            control: 0,
            status: 0,
            baud: 0,
        };
        proof {
            assert(r@ =~= reset_state());
        }
        r
    }

    /// Read the mux interrupt-pending register.
    pub fn irq_read(&self) -> (r: u32)
        ensures
            r == self@.irq,
    {
        self.irq
    }

    /// Write the mux interrupt-pending register whole.
    pub fn irq_write(&mut self, v: u32)
        ensures
            final(self)@ == (RegsView { irq: v, ..old(self)@ }),
    {
        self.irq = v;
    }

    /// Read the mux enable register.
    pub fn enables_read(&self) -> (r: u32)
        ensures
            r == self@.enables,
    {
        self.enables
    }

    /// Write the mux enable register whole.
    pub fn enables_write(&mut self, v: u32)
        ensures
            final(self)@ == (RegsView { enables: v, ..old(self)@ }),
    {
        self.enables = v;
    }

    /// Read-view of the aliased data address: take the received byte.
    /// Reading the receive buffer consumes it, so the data-available flag
    /// clears.
    pub fn rbr_read(&mut self) -> (r: u8)
        ensures
            r == old(self)@.rbr,
            final(self)@ == (RegsView { lsr: old(self)@.lsr & !LSR_DATA_AVAILABLE, ..old(self)@ }),
    {
        let b = self.rbr;
        self.lsr = self.lsr & !LSR_DATA_AVAILABLE;
        b
    }

    /// Write-view of the aliased data address: hand a byte to the transmit
    /// holding slot. The transcript records it.
    pub fn thr_write(&mut self, byte: u8)
        ensures
            final(self)@ == (RegsView { thr: old(self)@.thr.push(byte), ..old(self)@ }),
    {
        self.thr.push(byte);
    }

    /// Read the interrupt-enable register.
    pub fn ier_read(&self) -> (r: u32)
        ensures
            r == self@.ier,
    {
        self.ier
    }

    /// Write the interrupt-enable register whole.
    pub fn ier_write(&mut self, v: u32)
        ensures
            final(self)@ == (RegsView { ier: v, ..old(self)@ }),
    {
        self.ier = v;
    }

    /// Read-view of the second aliased address: interrupt identification.
    pub fn iir_read(&self) -> (r: u32)
        ensures
            r == self@.iir,
    {
        self.iir
    }

    /// Write-view of the second aliased address: FIFO control.
    pub fn fcr_write(&mut self, v: u32)
        ensures
            final(self)@ == (RegsView { fcr: v, ..old(self)@ }),
    {
        self.fcr = v;
    }

    /// Read the line-control register.
    pub fn lcr_read(&self) -> (r: u32)
        ensures
            r == self@.lcr,
    {
        self.lcr
    }

    /// Write the line-control register whole.
    pub fn lcr_write(&mut self, v: u32)
        ensures
            final(self)@ == (RegsView { lcr: v, ..old(self)@ }),
    {
        self.lcr = v;
    }

    /// Read the modem-control register.
    pub fn mcr_read(&self) -> (r: u32)
        ensures
            r == self@.mcr,
    {
        self.mcr
    }

    /// Write the modem-control register whole.
    pub fn mcr_write(&mut self, v: u32)
        ensures
            final(self)@ == (RegsView { mcr: v, ..old(self)@ }),
    {
        self.mcr = v;
    }

    /// Read the line-status register (read-only).
    pub fn lsr_read(&self) -> (r: u32)
        ensures
            r == self@.lsr,
    {
        self.lsr
    }

    /// Read the modem-status register (read-only).
    pub fn msr_read(&self) -> (r: u32)
        ensures
            r == self@.msr,
    {
        self.msr
    }

    /// Read the scratch register (read-only).
    pub fn scratch_read(&self) -> (r: u32)
        ensures
            r == self@.scratch,
    {
        self.scratch
    }

    /// Read the auxiliary control register.
    pub fn control_read(&self) -> (r: u32)
        ensures
            r == self@.control,
    {
        self.control
    }

    /// Write the auxiliary control register whole.
    pub fn control_write(&mut self, v: u32)
        ensures
            final(self)@ == (RegsView { control: v, ..old(self)@ }),
    {
        self.control = v;
    }

    /// Read the auxiliary status register (read-only).
    pub fn status_read(&self) -> (r: u32)
        ensures
            r == self@.status,
    {
        self.status
    }

    /// Read the baud-rate divisor register.
    pub fn baud_read(&self) -> (r: u32)
        ensures
            r == self@.baud,
    {
        self.baud
    }

    /// Write the baud-rate divisor register whole.
    pub fn baud_write(&mut self, v: u32)
        ensures
            final(self)@ == (RegsView { baud: v, ..old(self)@ }),
    {
        self.baud = v;
    }

    /// Wire side of the simulation: the bytes the transmit holding slot was
    /// handed, oldest first.
    pub fn device_sent(&self) -> (r: &Vec<u8>)
        ensures
            r@ == self@.thr,
    {
        &self.thr
    }

    /// Wire side of the simulation: the value most recently written through
    /// the FIFO-control write-view.
    pub fn device_fcr(&self) -> (r: u32)
        ensures
            r == self@.fcr,
    {
        self.fcr
    }

    /// Wire side of the simulation: a byte arrives. The receive buffer
    /// presents it and the data-available flag sets.
    pub fn device_receive(&mut self, byte: u8)
        ensures
            final(self)@ == (RegsView {
                rbr: byte,
                lsr: old(self)@.lsr | LSR_DATA_AVAILABLE,
                ..old(self)@
            }),
    {
        self.rbr = byte;
        self.lsr = self.lsr | LSR_DATA_AVAILABLE;
    }

    /// Wire side of the simulation: the transmitter drains, so the holding
    /// slot reports empty.
    pub fn device_transmit_ready(&mut self)
        ensures
            final(self)@ == (RegsView { lsr: old(self)@.lsr | LSR_THR_EMPTY, ..old(self)@ }),
    {
        self.lsr = self.lsr | LSR_THR_EMPTY;
    }
}

} // verus!
