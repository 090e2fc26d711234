//! Polled driver for a 16550-like mini UART.
//!
//! The hardware's register block is modelled as plain values held in
//! [`regs::RegisterBlock`]: every register of the real block appears, the two
//! aliased addresses are exposed only through distinct read-view and
//! write-view accessors, and the transmit-holding write-view keeps a
//! transcript of every byte written through it. [`uart::UART`] owns one block
//! and implements the initialization protocol and the blocking, polling byte
//! I/O on top of it; [`echo::echo_response`] gives the terminal echo rule the
//! surrounding application applies to each received byte.

pub mod echo;
pub mod regs;
pub mod uart;
