use nanai_intel_gna_monitor::decimal::{push_decimal, push_fixed_point, round_half_even_exec};
use nanai_intel_gna_monitor::text::{parse_unsigned_exec, starts_with_char, str_eq};

#[test]
fn parse_unsigned_agrees_with_std() {
    let samples = [
        "", "+", "-", "0", "00", "007", "+0", "+42", "-0", "-5", "++1", "12a", " 1", "1 ",
        "18446744073709551615", "18446744073709551616", "99999999999999999999", "4294967295",
        "4294967296", "٣", "1_000",
    ];
    for s in samples {
        assert_eq!(parse_unsigned_exec(s, u64::MAX), s.parse::<u64>().ok(), "text {:?}", s);
        let as_u32 = parse_unsigned_exec(s, u32::MAX as u64).map(|v| v as u32);
        assert_eq!(as_u32, s.parse::<u32>().ok(), "text {:?}", s);
    }
}

#[test]
fn decimal_rendering_round_trips() {
    for n in [0u64, 1, 9, 10, 99, 100, 12345, u64::MAX] {
        let mut s = String::new();
        push_decimal(&mut s, n as u128);
        assert_eq!(s, n.to_string());
        assert_eq!(parse_unsigned_exec(&s, u64::MAX), Some(n));
    }
}

#[test]
fn fixed_point_rendering() {
    let mut s = String::new();
    push_fixed_point(&mut s, 105, 2);
    assert_eq!(s, "1.05");
    let mut s = String::new();
    push_fixed_point(&mut s, 7, 1);
    assert_eq!(s, "0.7");
    let mut s = String::new();
    push_fixed_point(&mut s, 42, 0);
    assert_eq!(s, "42");
}

#[test]
fn rounding_half_to_even() {
    assert_eq!(round_half_even_exec(5, 2), 2);
    assert_eq!(round_half_even_exec(7, 2), 4);
    assert_eq!(round_half_even_exec(7, 3), 2);
    assert_eq!(round_half_even_exec(8, 3), 3);
    assert_eq!(round_half_even_exec(0, 9), 0);
    assert_eq!(round_half_even_exec(u128::MAX, 1), u128::MAX);
}

#[test]
fn string_helpers() {
    assert!(str_eq("--dll", "--dll"));
    assert!(!str_eq("--dll", "--dl"));
    assert!(!str_eq("--env", "--dll"));
    assert!(str_eq("", ""));
    assert!(starts_with_char("-h", '-'));
    assert!(!starts_with_char("", '-'));
    assert!(!starts_with_char("h-", '-'));
}
