use oxidenes::joy::{Buttons, Joy};

fn pressed(a: bool, start: bool) -> Buttons {
    let mut keys = Buttons::none();
    keys.a = a;
    keys.start = start;
    keys
}

#[test]
fn latch_reports_a_and_start() {
    let mut joy = Joy::new();
    joy.set_keys(0, pressed(true, true));
    joy.write(0x01);
    joy.write(0x00);
    let bits: Vec<u8> = (0..8).map(|_| joy.read(0) & 1).collect();
    assert_eq!(bits, vec![1, 0, 0, 1, 0, 0, 0, 0]);
}

#[test]
fn reads_after_the_eighth_report_one() {
    let mut joy = Joy::new();
    joy.write(1);
    joy.write(0);
    for _ in 0..8 {
        assert_eq!(joy.read(0), 0);
    }
    for _ in 0..4 {
        assert_eq!(joy.read(0), 1);
    }
}

#[test]
fn every_button_has_its_turn() {
    for n in 0..8 {
        let mut keys = Buttons::none();
        match n {
            0 => keys.a = true,
            1 => keys.b = true,
            2 => keys.select = true,
            3 => keys.start = true,
            4 => keys.up = true,
            5 => keys.down = true,
            6 => keys.left = true,
            _ => keys.right = true,
        }
        assert_eq!(keys.to_byte(), 1 << n);
        let mut joy = Joy::new();
        joy.set_keys(1, keys);
        joy.write(1);
        joy.write(0);
        for turn in 0..8 {
            assert_eq!(joy.read(1), if turn == n { 1 } else { 0 });
            assert_eq!(joy.read(0), 0);
        }
    }
}

#[test]
fn high_strobe_keeps_reporting_a() {
    let mut joy = Joy::new();
    joy.set_keys(0, pressed(true, false));
    joy.write(1);
    for _ in 0..10 {
        assert_eq!(joy.read(0), 1);
    }
    joy.set_keys(0, pressed(false, true));
    assert_eq!(joy.read(0), 0);
}

#[test]
fn keys_set_after_the_latch_wait_for_the_next() {
    let mut joy = Joy::new();
    joy.write(1);
    joy.write(0);
    joy.set_keys(0, pressed(true, false));
    assert_eq!(joy.read(0), 0);
    joy.write(1);
    joy.write(0);
    assert_eq!(joy.read(0), 1);
    joy.set_keys(2, pressed(true, true));
    assert_eq!(joy.pad2, Buttons::none());
}
