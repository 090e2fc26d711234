//! The UART driver: one-time claim, the initialization protocol, and
//! blocking, polling byte I/O over the register block.
//!
//! Every operation is strictly synchronous: it spins on a line-status flag
//! until its hardware condition holds and only then touches the data
//! register, so a call returns only after the flag it polls for was observed
//! set. Nothing bounds the spin — an unresponsive peripheral stalls the
//! caller indefinitely, by design.

use vstd::prelude::*;
use vstd::string::StringSliceAdditionalSpecFns;

use crate::regs::BAUD_DIVISOR;
use crate::regs::CNTL_RECEIVER_ENABLE;
use crate::regs::CNTL_TRANSMITTER_ENABLE;
use crate::regs::FCR_CLEAR_RECEIVE_FIFO;
use crate::regs::FCR_CLEAR_TRANSMIT_FIFO;
use crate::regs::LCR_DATA_WORD_LENGTH_8;
use crate::regs::LCR_DATA_WORD_LENGTH_MASK;
use crate::regs::LSR_DATA_AVAILABLE;
use crate::regs::LSR_THR_EMPTY;
use crate::regs::MCR_REQUEST_TO_SEND;
use crate::regs::MUX_UART;
use crate::regs::RegisterBlock;
use crate::regs::RegsView;
use crate::regs::reset_state;

verus! {

/// The register state `init` leaves behind, as a function of the state it
/// found. The mux, auxiliary-control, line-control and modem-control
/// registers are read-modified-written — bits outside the touched fields
/// keep their prior value — while the interrupt-enable, FIFO-control and
/// baud-divisor registers are written whole. Nothing else moves: the data
/// paths and status registers are untouched.
pub open spec fn init_post(r: RegsView) -> RegsView {
    RegsView {
        enables: r.enables | MUX_UART,
        ier: 0,
        fcr: FCR_CLEAR_RECEIVE_FIFO | FCR_CLEAR_TRANSMIT_FIFO,
        lcr: (r.lcr & !LCR_DATA_WORD_LENGTH_MASK) | LCR_DATA_WORD_LENGTH_8,
        mcr: r.mcr & !MCR_REQUEST_TO_SEND,
        control: r.control | CNTL_RECEIVER_ENABLE | CNTL_TRANSMITTER_ENABLE,
        baud: BAUD_DIVISOR,
        ..r
    }
}

/// The driver. It owns the register block outright, so exclusive use of the
/// peripheral is exclusive use of this value.
pub struct UART {
    /// The register block the driver operates on.
    pub regs: RegisterBlock,
}

impl View for UART {
    type V = RegsView;

    open spec fn view(&self) -> RegsView {
        self.regs@
    }
}

impl UART {
    /// Claim the first mini UART. On the real board this is the one
    /// privileged construction of the driver over the block at the fixed
    /// physical base address, to be performed at most once; here the claimed
    /// block is the simulated one in its power-on state, and exclusivity is
    /// ownership of the returned value.
    pub fn uart1() -> (u: UART)
        ensures
            u@ == reset_state(),
    {
        UART { regs: RegisterBlock::new() }
    }

    /// Run the initialization protocol, in order: select this controller on
    /// the mux, enable the receiver, set an 8-bit data word, drop
    /// request-to-send, disable every interrupt source, pulse both
    /// FIFO-clear bits through the FIFO-control write-view, program the baud
    /// divisor, and finally enable receiver and transmitter together.
    pub fn init(&mut self)
        ensures
            final(self)@ == init_post(old(self)@),
    {
        let e = self.regs.enables_read();
        self.regs.enables_write(e | MUX_UART);
        let c = self.regs.control_read();
        self.regs.control_write(c | CNTL_RECEIVER_ENABLE);
        let l = self.regs.lcr_read();
        self.regs.lcr_write((l & !LCR_DATA_WORD_LENGTH_MASK) | LCR_DATA_WORD_LENGTH_8);
        let m = self.regs.mcr_read();
        self.regs.mcr_write(m & !MCR_REQUEST_TO_SEND);
        self.regs.ier_write(0);
        self.regs.fcr_write(FCR_CLEAR_RECEIVE_FIFO | FCR_CLEAR_TRANSMIT_FIFO);
        self.regs.baud_write(BAUD_DIVISOR);
        let c2 = self.regs.control_read();
        self.regs.control_write(c2 | (CNTL_RECEIVER_ENABLE | CNTL_TRANSMITTER_ENABLE));
        proof {
            let c0 = old(self)@.control;
            assert((c0 | CNTL_RECEIVER_ENABLE) | (CNTL_RECEIVER_ENABLE | CNTL_TRANSMITTER_ENABLE)
                == c0 | CNTL_RECEIVER_ENABLE | CNTL_TRANSMITTER_ENABLE) by (bit_vector);
            assert(self@ =~= init_post(old(self)@));
        }
    }

    /// Poll the line-status register until it reports the transmit holding
    /// slot empty. On hardware this spin may observe the flag clear many
    /// times before it sets; the simulated status register holds its value
    /// between polls, so a spin that could never end is ruled out by asking
    /// the flag to be set already, and the loop provably exits on its first
    /// poll.
    fn wait_transmit_ready(&self)
        requires
            self@.lsr & LSR_THR_EMPTY != 0,
        ensures
            self@.lsr & LSR_THR_EMPTY != 0,
    {
        loop
            invariant
                self@.lsr & LSR_THR_EMPTY != 0,
            ensures
                self@.lsr & LSR_THR_EMPTY != 0,
            decreases 0int,
        {
            if self.regs.lsr_read() & LSR_THR_EMPTY != 0 {
                break;
            }
        }
    }

    /// Poll the line-status register until it reports received data
    /// available. As with `wait_transmit_ready`, the simulated status
    /// register holds its value between polls, so the flag must be set
    /// already and the loop provably exits on its first poll.
    fn wait_receive_ready(&self)
        requires
            self@.lsr & LSR_DATA_AVAILABLE != 0,
        ensures
            self@.lsr & LSR_DATA_AVAILABLE != 0,
    {
        loop
            invariant
                self@.lsr & LSR_DATA_AVAILABLE != 0,
            ensures
                self@.lsr & LSR_DATA_AVAILABLE != 0,
            decreases 0int,
        {
            if self.regs.lsr_read() & LSR_DATA_AVAILABLE != 0 {
                break;
            }
        }
    }

    /// Blocking write of one byte: poll until the transmit holding slot is
    /// empty, then hand exactly `byte` to the data register's write-view.
    /// Returning says only that the hardware accepted the byte into its
    /// holding slot, not that it has left the wire.
    pub fn write_byte(&mut self, byte: u8)
        requires
            old(self)@.lsr & LSR_THR_EMPTY != 0,
        ensures
            final(self)@ == (RegsView { thr: old(self)@.thr.push(byte), ..old(self)@ }),
    {
        self.wait_transmit_ready();
        self.regs.thr_write(byte);
    }

    /// Blocking write of a whole slice: each byte in order through
    /// `write_byte`, with no reordering, batching or framing — the transmit
    /// transcript grows by exactly the slice, and nothing else changes.
    pub fn write_bytes(&mut self, s: &[u8])
        requires
            old(self)@.lsr & LSR_THR_EMPTY != 0,
        ensures
            final(self)@ == (RegsView { thr: old(self)@.thr + s@, ..old(self)@ }),
    {
        let mut i: usize = 0;
        while i < s.len()
            invariant
                i <= s@.len(),
                old(self)@.lsr & LSR_THR_EMPTY != 0,
                self@ == (RegsView { thr: old(self)@.thr + s@.subrange(0, i as int), ..old(self)@ }),
            decreases s@.len() - i,
        {
            let b = s[i];
            self.write_byte(b);
            i = i + 1;
            proof {
                assert(old(self)@.thr + s@.subrange(0, i as int)
                    =~= (old(self)@.thr + s@.subrange(0, i - 1)).push(s@[i - 1]));
                assert(self@ =~= (RegsView {
                    thr: old(self)@.thr + s@.subrange(0, i as int),
                    ..old(self)@
                }));
            }
        }
        proof {
            assert(s@.subrange(0, s@.len() as int) =~= s@);
            assert(self@ =~= (RegsView { thr: old(self)@.thr + s@, ..old(self)@ }));
        }
    }

    /// Blocking write of a text slice: its UTF-8 bytes, in order, through
    /// `write_bytes`.
    pub fn write_str(&mut self, s: &str)
        requires
            old(self)@.lsr & LSR_THR_EMPTY != 0,
        ensures
            final(self)@ == (RegsView { thr: old(self)@.thr + s.spec_bytes(), ..old(self)@ }),
    {
        self.write_bytes(s.as_bytes());
    }

    /// Blocking read of one byte: spin until received data is available,
    /// then take the byte from the data register's read-view. The read
    /// consumes it — the data-available flag is clear afterwards, so a
    /// second read blocks until the wire delivers again.
    pub fn read_byte(&mut self) -> (r: u8)
        requires
            old(self)@.lsr & LSR_DATA_AVAILABLE != 0,
        ensures
            r == old(self)@.rbr,
            final(self)@ == (RegsView {
                lsr: old(self)@.lsr & !LSR_DATA_AVAILABLE,
                ..old(self)@
            }),
    {
        self.wait_receive_ready();
        self.regs.rbr_read()
    }
}

/// Initialization is idempotent: running the protocol on a state it already
/// produced reproduces that state exactly, so two consecutive `init` calls
/// end in the same register state as one.
pub proof fn lemma_init_idempotent(r: RegsView)
    ensures
        init_post(init_post(r)) == init_post(r),
{
    let e = r.enables;
    let l = r.lcr;
    let m = r.mcr;
    let c = r.control;
    assert((e | MUX_UART) | MUX_UART == e | MUX_UART) by (bit_vector);
    assert((((l & !LCR_DATA_WORD_LENGTH_MASK) | LCR_DATA_WORD_LENGTH_8)
        & !LCR_DATA_WORD_LENGTH_MASK) | LCR_DATA_WORD_LENGTH_8
        == (l & !LCR_DATA_WORD_LENGTH_MASK) | LCR_DATA_WORD_LENGTH_8) by (bit_vector);
    assert((m & !MCR_REQUEST_TO_SEND) & !MCR_REQUEST_TO_SEND
        == m & !MCR_REQUEST_TO_SEND) by (bit_vector);
    assert((c | CNTL_RECEIVER_ENABLE | CNTL_TRANSMITTER_ENABLE)
        | CNTL_RECEIVER_ENABLE | CNTL_TRANSMITTER_ENABLE
        == c | CNTL_RECEIVER_ENABLE | CNTL_TRANSMITTER_ENABLE) by (bit_vector);
    assert(init_post(init_post(r)) =~= init_post(r));
}

/// The mux is read-modified-written, never overwritten: after `init` the
/// UART-select bit of the mux enable register is set, and every other bit of
/// that register keeps the value it had before.
pub proof fn lemma_init_mux_select(r: RegsView, i: u32)
    requires
        1 <= i < 32,
    ensures
        init_post(r).enables & MUX_UART == MUX_UART,
        (init_post(r).enables >> i) & 1 == (r.enables >> i) & 1,
{
    let e = r.enables;
    assert((e | MUX_UART) & MUX_UART == MUX_UART) by (bit_vector);
    assert(((e | MUX_UART) >> i) & 1 == (e >> i) & 1) by (bit_vector)
        requires
            1 <= i < 32,
    ;
}

} // verus!
