use nesemu::controller::Controller;
use nesemu::controller::KeyStatus;

#[test]
fn read_without_strobe_should_shift_right() {
    let mut controller = Controller::new();
    controller.addr = KeyStatus::B.mask();
    controller.strobe = false;
    controller.read();
    assert_eq!(controller.addr, KeyStatus::B.mask() >> 1);
}

#[test]
fn read_with_strobe_should_return_keycode() {
    let mut controller = Controller::new();
    controller.key = KeyStatus::A;
    controller.strobe = true;
    controller.read();
    assert_eq!(controller.addr, 1);
    controller.key = KeyStatus::Up;
    controller.strobe = true;
    controller.read();
    assert_eq!(controller.addr, KeyStatus::Up.mask());
}

#[test]
fn write_should_strobe() {
    let mut controller = Controller::new();
    controller.write(0x1);
    assert!(controller.strobe);
}

#[test]
fn write_shouldnt_strobe() {
    let mut controller = Controller::new();
    controller.write(0xc0);
    assert!(!controller.strobe);
}

#[test]
fn serial_read_walks_buttons_lsb_first() {
    let mut controller = Controller::new();
    controller.key = KeyStatus::Start;
    controller.write(1);
    controller.write(0);
    let mut bits = Vec::new();
    for _ in 0..8 {
        bits.push(controller.read());
    }
    assert_eq!(bits, vec![0, 0, 0, 1, 0, 0, 0, 0]);
    // the register is exhausted: further reads feed 1s
    assert_eq!(controller.read(), 1);
    assert_eq!(controller.read(), 1);
}
