use std::io::Read;
use std::sync::mpsc::channel;

use serialport::SerialPort;
use serialport::TTYPort;

use boardcheck::ledmatrix::run_fill;
use boardcheck::ledmatrix::send_draw_data;
use boardcheck::ledmatrix::DrawBuffer;
use boardcheck::ledmatrix::LedmatrixConfig;
use boardcheck::ledmatrix::TTY_BREAK_SPEED;
use boardcheck::ledmatrix::TTY_DATA_SPEED;
use boardcheck::link::SerialLink;
use boardcheck::utils::Exiter;

fn read_exactly(port: &mut TTYPort, n: usize) -> Vec<u8> {
    let mut out = vec![0u8; n];
    let mut got: usize = 0;
    let mut tries: u32 = 0;
    while got < n {
        match port.read(&mut out[got..]) {
            Ok(0) => panic!("pty closed after {} of {} bytes", got, n),
            Ok(k) => got += k,
            Err(e) => {
                tries += 1;
                if tries > 50 {
                    panic!("read failed after {} of {} bytes: {}", got, n, e);
                }
            }
        }
    }
    out
}

#[test]
fn frame_is_break_byte_then_payload_on_the_wire() {
    let (mut master, slave) = TTYPort::pair().expect("pty pair");
    let mut link = SerialLink::from_port(slave, TTY_BREAK_SPEED, TTY_DATA_SPEED);
    let payload: Vec<u8> = vec![1, 2, 3, 4, 5];
    send_draw_data(&mut link, &payload).expect("frame send");
    let seen = read_exactly(&mut master, 6);
    assert_eq!(seen, vec![0, 1, 2, 3, 4, 5]);
}

#[test]
fn two_frames_appear_in_order_on_the_wire() {
    let (mut master, slave) = TTYPort::pair().expect("pty pair");
    let mut link = SerialLink::from_port(slave, TTY_BREAK_SPEED, TTY_DATA_SPEED);
    let first: Vec<u8> = vec![7, 8];
    let second: Vec<u8> = vec![9];
    send_draw_data(&mut link, &first).expect("first frame");
    send_draw_data(&mut link, &second).expect("second frame");
    let seen = read_exactly(&mut master, 5);
    assert_eq!(seen, vec![0, 7, 8, 0, 9]);
}

#[test]
fn fill_run_sends_one_frame_and_stops_once_signaled() {
    let (mut master, slave) = TTYPort::pair().expect("pty pair");
    let mut link = SerialLink::from_port(slave, TTY_BREAK_SPEED, TTY_DATA_SPEED);
    let mut buf = DrawBuffer::new(2, 2);
    let (tx, rx) = channel::<()>();
    let exiter = Exiter::from_receiver(rx);
    drop(tx);
    let r = run_fill(&mut link, &mut buf, &exiter, 50, u64::MAX);
    assert_eq!(r, Ok(true));
    let seen = read_exactly(&mut master, 5);
    assert_eq!(seen, vec![0, 0xFF, 0, 0, 0]);
    assert_eq!(buf.cursor_pos(), 1);
}

#[test]
fn fill_run_with_no_budget_sends_nothing() {
    let (master, slave) = TTYPort::pair().expect("pty pair");
    let mut link = SerialLink::from_port(slave, TTY_BREAK_SPEED, TTY_DATA_SPEED);
    let mut buf = DrawBuffer::new(2, 2);
    let (tx, rx) = channel::<()>();
    let exiter = Exiter::from_receiver(rx);
    let r = run_fill(&mut link, &mut buf, &exiter, 50, 0);
    assert_eq!(r, Ok(false));
    drop(tx);
    drop(master);
}

#[test]
fn device_test_runs_end_to_end_over_a_pty() {
    let (mut master, slave) = TTYPort::pair().expect("pty pair");
    let driver = slave.name().expect("slave pty has a path");
    let cfg = LedmatrixConfig::new(driver, 50);
    let (tx, rx) = channel::<()>();
    let exiter = Exiter::from_receiver(rx);
    drop(tx);
    let r = boardcheck::ledmatrix::test(&cfg, exiter);
    assert_eq!(r, Ok(()));
    let seen = read_exactly(&mut master, 1027);
    assert_eq!(seen[0], 0);
    assert_eq!(seen[1], 0xFF);
    for i in 2..1027 {
        assert_eq!(seen[i], 0);
    }
    drop(slave);
}

#[test]
fn device_test_reports_open_failure() {
    let cfg = LedmatrixConfig::new(String::from("/nonexistent/serial/device"), 10);
    let (tx, rx) = channel::<()>();
    let exiter = Exiter::from_receiver(rx);
    drop(tx);
    let r = boardcheck::ledmatrix::test(&cfg, exiter);
    match r {
        Err(msg) => assert!(msg.starts_with("Fail to open serial port")),
        Ok(()) => panic!("opening a nonexistent device must fail"),
    }
}
