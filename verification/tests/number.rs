use db_clone::number::{format_i64, format_u64, parse_i32, parse_i64, parse_u32};

fn chars(s: &str) -> Vec<char> {
    s.chars().collect()
}

#[test]
fn unsigned_numbers_are_written_in_decimal() {
    assert_eq!(format_u64(0), "0");
    assert_eq!(format_u64(7), "7");
    assert_eq!(format_u64(10), "10");
    assert_eq!(format_u64(5432), "5432");
    assert_eq!(format_u64(1_000_000), "1000000");
    assert_eq!(format_u64(u64::MAX), "18446744073709551615");
    for n in [1u64, 9, 11, 99, 100, 101, 65535, 4294967296, 9007199254740993] {
        assert_eq!(format_u64(n), n.to_string());
    }
}

#[test]
fn signed_numbers_are_written_with_their_sign() {
    assert_eq!(format_i64(0), "0");
    assert_eq!(format_i64(12), "12");
    assert_eq!(format_i64(-1), "-1");
    assert_eq!(format_i64(-120), "-120");
    assert_eq!(format_i64(i64::MAX), "9223372036854775807");
    assert_eq!(format_i64(i64::MIN), "-9223372036854775808");
}

#[test]
fn signed_numbers_are_read_as_the_standard_library_reads_them() {
    for s in [
        "0",
        "7",
        "+7",
        "-7",
        "-0",
        "+0",
        "007",
        "",
        "+",
        "-",
        "--1",
        "+-1",
        "1 ",
        " 1",
        "1a",
        "a",
        "12.5",
        "9223372036854775807",
        "9223372036854775808",
        "-9223372036854775808",
        "-9223372036854775809",
        "00000000000000000000000000000000000000000012",
        "99999999999999999999999999999999999999999999",
        "\u{663}",
        "1_000",
    ] {
        assert_eq!(parse_i64(&chars(s)), s.parse::<i64>().ok(), "input {:?}", s);
        assert_eq!(parse_i32(&chars(s)), s.parse::<i32>().ok(), "input {:?}", s);
        assert_eq!(parse_u32(&chars(s)), s.parse::<u32>().ok(), "input {:?}", s);
    }
}

#[test]
fn numbers_at_the_limits_of_32_bits() {
    assert_eq!(parse_i32(&chars("2147483647")), Some(i32::MAX));
    assert_eq!(parse_i32(&chars("2147483648")), None);
    assert_eq!(parse_i32(&chars("-2147483648")), Some(i32::MIN));
    assert_eq!(parse_i32(&chars("-2147483649")), None);
    assert_eq!(parse_u32(&chars("4294967295")), Some(u32::MAX));
    assert_eq!(parse_u32(&chars("4294967296")), None);
    assert_eq!(parse_u32(&chars("-0")), None);
    assert_eq!(parse_u32(&chars("+16")), Some(16));
    assert_eq!(parse_i64(&chars("-42")), Some(-42));
}
