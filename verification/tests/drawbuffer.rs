use boardcheck::ledmatrix::DrawBuffer;
use boardcheck::ledmatrix::LedmatrixConfig;
use boardcheck::ledmatrix::DISPLAY_HEIGHT;
use boardcheck::ledmatrix::DISPLAY_WIDTH;

#[test]
fn buffer_sized_from_display_geometry() {
    let buf = DrawBuffer::new(DISPLAY_WIDTH, DISPLAY_HEIGHT);
    assert_eq!(buf.size(), 64 * 32 / 2 + 2);
    assert_eq!(buf.size(), 1026);
    assert_eq!(buf.cursor_pos(), 0);
    for i in 0..buf.size() {
        assert_eq!(buf.byte_at(i), 0);
    }
}

#[test]
fn fill_step_sets_only_the_cursor_cell() {
    let mut buf = DrawBuffer::new(DISPLAY_WIDTH, DISPLAY_HEIGHT);
    buf.fill_step();
    assert_eq!(buf.byte_at(0), 0xFF);
    assert_eq!(buf.byte_at(1), 0);
    assert_eq!(buf.byte_at(1025), 0);
    assert_eq!(buf.cursor_pos(), 1);
}

#[test]
fn full_sweep_fills_every_byte_and_wraps_cursor() {
    let mut buf = DrawBuffer::new(2, 2);
    let n = buf.size();
    assert_eq!(n, 4);
    for _ in 0..n {
        buf.fill_step();
    }
    for i in 0..n {
        assert_eq!(buf.byte_at(i), 0xFF);
    }
    assert_eq!(buf.cursor_pos(), 0);
    buf.fill_step();
    assert_eq!(buf.cursor_pos(), 1);
}

#[test]
fn config_carries_driver_and_delay() {
    let cfg = LedmatrixConfig::new(String::from("/dev/ttyS7"), 50);
    assert_eq!(cfg.driver(), "/dev/ttyS7");
    assert_eq!(cfg.fill_delay(), 50);
}

#[test]
fn settings_hold_the_ledmatrix_section() {
    let cfg = boardcheck::utils::Config {
        ledmatrix: LedmatrixConfig::new(String::from("/dev/ttyUSB0"), 25),
    };
    assert_eq!(cfg.ledmatrix.driver(), "/dev/ttyUSB0");
    assert_eq!(cfg.ledmatrix.fill_delay(), 25);
}
