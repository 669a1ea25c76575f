use fm_voice::fixed::ONE;
use fm_voice::param::Param;

const KILOHERTZ: i32 = 1000 * 65536;

#[test]
fn new_parameter_rests_on_its_value() {
    let mut p = Param::new(48_000, 440);
    assert_eq!(p.current(), 440);
    assert_eq!(p.target(), 440);
    assert_eq!(p.value(), 440);
    assert_eq!(p.value(), 440);
}

#[test]
fn glide_takes_a_forty_eighth_of_a_second() {
    let mut p = Param::new(48_000, 0);
    p.set_value(KILOHERTZ);
    assert_eq!(p.target(), KILOHERTZ);
    assert_eq!(p.current(), 0);
    assert_eq!(p.value(), ONE as i32);
    assert_eq!(p.value(), 2 * ONE as i32);
    for _ in 2..499 {
        p.value();
    }
    assert_eq!(p.value(), 500 * ONE as i32);
    for _ in 500..998 {
        p.value();
    }
    assert_eq!(p.value(), 999 * ONE as i32);
    assert_eq!(p.value(), KILOHERTZ);
    assert_eq!(p.value(), KILOHERTZ);
    assert_eq!(p.current(), KILOHERTZ);
}

#[test]
fn glide_down_rounds_towards_its_origin() {
    let mut p = Param::new(48_000, 100);
    p.set_value(-100);
    assert_eq!(p.value(), 100);
    for _ in 1..9 {
        p.value();
    }
    assert_eq!(p.value(), 98);
    for _ in 10..499 {
        p.value();
    }
    assert_eq!(p.value(), 0);
    for _ in 500..999 {
        p.value();
    }
    assert_eq!(p.value(), -100);
    assert_eq!(p.value(), -100);
}

#[test]
fn glide_never_jumps_and_never_turns_back() {
    let mut p = Param::new(48_000, -7);
    p.set_value(123_456);
    let mut last = p.current();
    assert_eq!(last, -7);
    for _ in 0..1000 {
        let next = p.value();
        assert!(next >= last);
        assert!(next - last <= 123_463 / 1000 + 1);
        last = next;
    }
    assert_eq!(last, 123_456);
}

#[test]
fn new_target_in_mid_glide_starts_from_the_value_in_effect() {
    let mut p = Param::new(48_000, 0);
    p.set_value(1000);
    for _ in 0..500 {
        p.value();
    }
    assert_eq!(p.current(), 500);
    p.set_value(0);
    assert_eq!(p.current(), 500);
    assert_eq!(p.target(), 0);
    assert_eq!(p.value(), 500);
    assert_eq!(p.value(), 499);
    for _ in 2..1000 {
        p.value();
    }
    assert_eq!(p.current(), 0);
}

#[test]
fn immediate_value_takes_effect_at_once() {
    let mut p = Param::new(48_000, 0);
    p.set_value(1000);
    p.value();
    p.set_value_no_smooth(77);
    assert_eq!(p.current(), 77);
    assert_eq!(p.target(), 77);
    assert_eq!(p.value(), 77);
    p.set_value_no_smooth(i32::MIN);
    assert_eq!(p.value(), i32::MIN);
}

#[test]
fn glide_across_the_whole_range_does_not_overflow() {
    let mut p = Param::new(u32::MAX, i32::MIN);
    p.set_value(i32::MAX);
    assert_eq!(p.current(), i32::MIN);
    let first = p.value();
    assert!(first >= i32::MIN && first <= i32::MIN + 49);
    let mut q = Param::new(96, i32::MAX);
    q.set_value(i32::MIN);
    assert_eq!(q.value(), 0);
    assert_eq!(q.value(), i32::MIN);
}

#[test]
fn slow_stream_has_no_glide() {
    let mut p = Param::new(47, 5);
    p.set_value(9);
    assert_eq!(p.current(), 9);
    assert_eq!(p.value(), 9);
    let mut q = Param::new(48, 5);
    q.set_value(9);
    assert_eq!(q.current(), 5);
    assert_eq!(q.value(), 9);
}
