use bcm2837::regs::BAUD_DIVISOR;
use bcm2837::regs::CNTL_RECEIVER_ENABLE;
use bcm2837::regs::CNTL_TRANSMITTER_ENABLE;
use bcm2837::regs::FCR_CLEAR_RECEIVE_FIFO;
use bcm2837::regs::FCR_CLEAR_TRANSMIT_FIFO;
use bcm2837::regs::LCR_DATA_WORD_LENGTH_8;
use bcm2837::regs::LSR_DATA_AVAILABLE;
use bcm2837::regs::LSR_THR_EMPTY;
use bcm2837::regs::MCR_REQUEST_TO_SEND;
use bcm2837::regs::MUX_SPI1;
use bcm2837::regs::MUX_SPI2;
use bcm2837::regs::MUX_UART;
use bcm2837::uart::UART;

#[test]
fn baud_divisor_formula() {
    // floor(25_000_000 / 8 / 115_200) == 27
    assert_eq!(BAUD_DIVISOR, 27);
    let mut u = UART::uart1();
    u.init();
    assert_eq!(u.regs.baud_read(), 27);
}

#[test]
fn init_programs_every_step() {
    let mut u = UART::uart1();
    u.init();
    assert_eq!(u.regs.enables_read() & MUX_UART, MUX_UART);
    assert_eq!(u.regs.ier_read(), 0);
    assert_eq!(u.regs.device_fcr(), FCR_CLEAR_RECEIVE_FIFO | FCR_CLEAR_TRANSMIT_FIFO);
    assert_eq!(u.regs.lcr_read() & 0x3, LCR_DATA_WORD_LENGTH_8);
    assert_eq!(u.regs.mcr_read() & MCR_REQUEST_TO_SEND, 0);
    assert_eq!(u.regs.control_read() & CNTL_RECEIVER_ENABLE, CNTL_RECEIVER_ENABLE);
    assert_eq!(u.regs.control_read() & CNTL_TRANSMITTER_ENABLE, CNTL_TRANSMITTER_ENABLE);
    assert_eq!(u.regs.baud_read(), BAUD_DIVISOR);
}

#[test]
fn init_twice_equals_init_once() {
    let mut once = UART::uart1();
    once.init();
    let mut twice = UART::uart1();
    twice.init();
    twice.init();
    assert_eq!(once.regs.irq_read(), twice.regs.irq_read());
    assert_eq!(once.regs.enables_read(), twice.regs.enables_read());
    assert_eq!(once.regs.ier_read(), twice.regs.ier_read());
    assert_eq!(once.regs.iir_read(), twice.regs.iir_read());
    assert_eq!(once.regs.device_fcr(), twice.regs.device_fcr());
    assert_eq!(once.regs.lcr_read(), twice.regs.lcr_read());
    assert_eq!(once.regs.mcr_read(), twice.regs.mcr_read());
    assert_eq!(once.regs.lsr_read(), twice.regs.lsr_read());
    assert_eq!(once.regs.msr_read(), twice.regs.msr_read());
    assert_eq!(once.regs.scratch_read(), twice.regs.scratch_read());
    assert_eq!(once.regs.control_read(), twice.regs.control_read());
    assert_eq!(once.regs.status_read(), twice.regs.status_read());
    assert_eq!(once.regs.baud_read(), twice.regs.baud_read());
    assert_eq!(once.regs.device_sent(), twice.regs.device_sent());
}

#[test]
fn init_keeps_other_mux_bits() {
    let mut u = UART::uart1();
    u.regs.enables_write(MUX_SPI1 | MUX_SPI2);
    u.init();
    assert_eq!(u.regs.enables_read(), MUX_UART | MUX_SPI1 | MUX_SPI2);

    let mut v = UART::uart1();
    v.regs.enables_write(0);
    v.init();
    assert_eq!(v.regs.enables_read(), MUX_UART);
}

#[test]
fn write_byte_sends_exactly_that_byte() {
    for b in 0..=255u8 {
        let mut u = UART::uart1();
        u.init();
        u.regs.device_transmit_ready();
        assert_ne!(u.regs.lsr_read() & LSR_THR_EMPTY, 0);
        u.write_byte(b);
        assert_eq!(u.regs.device_sent().as_slice(), &[b]);
    }
}

#[test]
fn write_bytes_sends_all_in_order() {
    let mut u = UART::uart1();
    u.init();
    u.regs.device_transmit_ready();
    u.write_bytes(&[0x61, 0x62, 0x63]);
    assert_eq!(u.regs.device_sent().as_slice(), b"abc");
}

#[test]
fn write_bytes_empty_sends_nothing() {
    let mut u = UART::uart1();
    u.init();
    u.regs.device_transmit_ready();
    u.write_bytes(&[]);
    assert!(u.regs.device_sent().is_empty());
}

#[test]
fn writes_append_to_earlier_writes() {
    let mut u = UART::uart1();
    u.init();
    u.regs.device_transmit_ready();
    u.write_byte(0x31);
    u.write_bytes(&[0x32, 0x33]);
    u.write_byte(0x34);
    assert_eq!(u.regs.device_sent().as_slice(), b"1234");
}

#[test]
fn write_str_sends_utf8_bytes() {
    let mut u = UART::uart1();
    u.init();
    u.regs.device_transmit_ready();
    u.write_str("Hello world\n");
    assert_eq!(u.regs.device_sent().as_slice(), b"Hello world\n");
}

#[test]
fn read_byte_returns_value_once_and_clears_flag() {
    let mut u = UART::uart1();
    u.init();
    u.regs.device_receive(0x42);
    assert_ne!(u.regs.lsr_read() & LSR_DATA_AVAILABLE, 0);
    let r = u.read_byte();
    assert_eq!(r, 0x42);
    // The read consumed the byte: the data-available flag is clear again.
    assert_eq!(u.regs.lsr_read() & LSR_DATA_AVAILABLE, 0);
}

#[test]
fn read_byte_takes_latest_delivered_byte() {
    let mut u = UART::uart1();
    u.init();
    // An unread byte may be overwritten by the wire; the driver never
    // consults the overrun flag and simply returns what the buffer holds.
    u.regs.device_receive(0x01);
    u.regs.device_receive(0x02);
    assert_eq!(u.read_byte(), 0x02);
}

#[test]
fn reset_state_reports_transmitter_idle() {
    let u = UART::uart1();
    assert_ne!(u.regs.lsr_read() & LSR_THR_EMPTY, 0);
    assert_eq!(u.regs.lsr_read() & LSR_DATA_AVAILABLE, 0);
    assert_eq!(u.regs.enables_read(), 0);
    assert_eq!(u.regs.baud_read(), 0);
    assert!(u.regs.device_sent().is_empty());
}
