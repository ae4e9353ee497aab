use jinglepi::waveform::{dec_to_regdata, rectangle_wave, saw_wave, triangle_wave};

#[test]
fn test_triangle_wave() {
    let t: u64 = 8;

    assert_eq!(triangle_wave(0, t), 2047);
    assert_eq!(triangle_wave(t / 8, t), (4095.0f64 - (2047.5 / 2.0)).round() as u16);
    assert_eq!(triangle_wave(t / 4, t), 4095);
    assert_eq!(triangle_wave(t / 2, t), 2047);
    assert_eq!(triangle_wave(t * 3 / 4, t), 0);
    assert_eq!(triangle_wave(t, t), 2047);
}

#[test]
fn test_saw_wave() {
    let t: u64 = 8;

    assert_eq!(saw_wave(0, t), 2047);
    assert_eq!(saw_wave(t / 4, t), (4095.0f64 - (2047.5 / 2.0)).round() as u16);
    // The amplitude at the half period is one half, which rounds up.
    assert_eq!(saw_wave(t / 2, t), 1);
    assert_eq!(saw_wave(t, t), 2048);
}

#[test]
fn triangle_landmarks_on_a_long_period() {
    let t: u64 = 2272;
    assert_eq!(triangle_wave(0, t), 2047);
    assert_eq!(triangle_wave(t / 4, t), 4095);
    assert_eq!(triangle_wave(t / 2, t), 2047);
    assert_eq!(triangle_wave(3 * t / 4, t), 0);
    assert_eq!(triangle_wave(t, t), 2047);
}

#[test]
fn triangle_between_landmarks() {
    assert_eq!(triangle_wave(1, 3), 3412);
    assert_eq!(triangle_wave(1, 6), 3412);
    // 2729.5 and 1364.5: halves round away from zero.
    assert_eq!(triangle_wave(5, 12), 2730);
    assert_eq!(triangle_wave(11, 12), 1365);
}

#[test]
fn saw_landmarks_on_a_long_period() {
    let t: u64 = 1000;
    assert_eq!(saw_wave(0, t), 2047);
    assert_eq!(saw_wave(t / 2, t), 1);
    assert_eq!(saw_wave(t, t), 2048);
    assert_eq!(saw_wave(499, t), 4090);
    assert_eq!(saw_wave(750, t), 1024);
}

#[test]
fn rectangle_is_full_scale_then_zero() {
    assert_eq!(rectangle_wave(0, 10), 4095);
    assert_eq!(rectangle_wave(4, 10), 4095);
    assert_eq!(rectangle_wave(5, 10), 0);
    assert_eq!(rectangle_wave(10, 10), 0);
    assert_eq!(rectangle_wave(2, 5), 4095);
    assert_eq!(rectangle_wave(3, 5), 0);
}

#[test]
fn register_packing() {
    assert_eq!(dec_to_regdata(4095), [0xFF, 0xF0]);
    assert_eq!(dec_to_regdata(0), [0x00, 0x00]);
    assert_eq!(dec_to_regdata(2047), [0x7F, 0xF0]);
    assert_eq!(dec_to_regdata(0x123), [0x12, 0x30]);
    assert_eq!(dec_to_regdata(0xABCD), [0xBC, 0xD0]);
}
