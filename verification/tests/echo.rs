use bcm2837::echo::echo_response;
use bcm2837::echo::echo_step;
use bcm2837::regs::LSR_DATA_AVAILABLE;
use bcm2837::uart::UART;

#[test]
fn carriage_return_answers_line_feed() {
    assert_eq!(echo_response(0x0d).as_slice(), b"\n");
}

#[test]
fn delete_answers_cursor_back_and_erase() {
    assert_eq!(echo_response(0x7f).as_slice(), b"\x1b[1D\x1b[K");
}

#[test]
fn ordinary_byte_echoes_unchanged() {
    assert_eq!(echo_response(0x61).as_slice(), b"a");
    assert_eq!(echo_response(0x00).as_slice(), &[0x00]);
    assert_eq!(echo_response(0xff).as_slice(), &[0xff]);
}

#[test]
fn echo_step_round_trip() {
    let mut u = UART::uart1();
    u.init();
    u.regs.device_transmit_ready();
    u.regs.device_receive(0x68);
    echo_step(&mut u);
    u.regs.device_receive(0x0d);
    echo_step(&mut u);
    assert_eq!(u.regs.device_sent().as_slice(), b"h\n");
    assert_eq!(u.regs.lsr_read() & LSR_DATA_AVAILABLE, 0);
}
