//! The terminal echo rule the application applies to each received byte.
//!
//! The surrounding program is a bare echo loop: read one byte, answer it,
//! forever. The answer is a pure decision on the byte — a carriage return is
//! echoed as a line feed, a delete is answered with the terminal control
//! sequence that steps the cursor back and erases to the end of the line,
//! and every other byte is echoed unchanged. The decision and one full round
//! of the loop are here; only the endless repetition stays outside.

use vstd::prelude::*;

use crate::regs::LSR_DATA_AVAILABLE;
use crate::regs::LSR_THR_EMPTY;
use crate::regs::RegsView;
use crate::uart::UART;

verus! {

/// The bytes answered to one received byte: a line feed for a carriage
/// return, cursor-left then erase-to-end-of-line for a delete, and the byte
/// itself for anything else.
pub open spec fn echo_spec(b: u8) -> Seq<u8> {
    if b == 0x0d {
        seq![0x0au8]
    } else if b == 0x7f {
        seq![0x1bu8, 0x5bu8, 0x31u8, 0x44u8, 0x1bu8, 0x5bu8, 0x4bu8]
    } else {
        seq![b]
    }
}

/// Decide the answer to one received byte.
pub fn echo_response(b: u8) -> (v: Vec<u8>)
    ensures
        v@ == echo_spec(b),
{
    let mut v: Vec<u8> = Vec::new();
    if b == 0x0d {
        v.push(0x0a);
    } else if b == 0x7f {
        v.push(0x1b);
        v.push(0x5b);
        v.push(0x31);
        v.push(0x44);
        v.push(0x1b);
        v.push(0x5b);
        v.push(0x4b);
    } else {
        v.push(b);
    }
    proof {
        assert(v@ =~= echo_spec(b));
    }
    v
}

/// One round of the echo loop: take the received byte and send exactly the
/// echo rule's answer for it. The read consumes the byte, so the
/// data-available flag is clear afterwards, and the transmit transcript
/// grows by the answer and nothing else.
pub fn echo_step(u: &mut UART)
    requires
        old(u)@.lsr & LSR_DATA_AVAILABLE != 0,
        old(u)@.lsr & LSR_THR_EMPTY != 0,
    ensures
        final(u)@ == (RegsView {
            thr: old(u)@.thr + echo_spec(old(u)@.rbr),
            lsr: old(u)@.lsr & !LSR_DATA_AVAILABLE,
            ..old(u)@
        }),
{
    let b = u.read_byte();
    proof {
        let l = old(u)@.lsr;
        assert((l & !LSR_DATA_AVAILABLE) & LSR_THR_EMPTY != 0) by (bit_vector)
            requires
                l & LSR_THR_EMPTY != 0,
        ;
    }
    let resp = echo_response(b);
    u.write_bytes(resp.as_slice());
    proof {
        assert(u@ =~= (RegsView {
            thr: old(u)@.thr + echo_spec(old(u)@.rbr),
            lsr: old(u)@.lsr & !LSR_DATA_AVAILABLE,
            ..old(u)@
        }));
    }
}

} // verus!
