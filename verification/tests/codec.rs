use rust_datadog_otel::codec::{
    encode_span_id, parse_decimal, push_decimal, reduce_trace_id, span_id_decimal, to_decimal,
    trace_id_decimal, u64_from_be,
};

#[test]
fn reduce_trace_id_reads_low_eight_bytes() {
    let id: [u8; 16] = [
        0x58, 0x40, 0x65, 0x20, 0xa0, 0x06, 0x64, 0x91, 0x27, 0xe3, 0x71, 0x90, 0x3a, 0x2d, 0xe9, 0x79,
    ];
    assert_eq!(reduce_trace_id(&id), 0x27e3_7190_3a2d_e979);
    assert_eq!(
        reduce_trace_id(&id),
        u64::from_be_bytes([0x27, 0xe3, 0x71, 0x90, 0x3a, 0x2d, 0xe9, 0x79])
    );
}

#[test]
fn reduce_trace_id_ignores_high_eight_bytes() {
    let mut a = [0u8; 16];
    let mut b = [0xffu8; 16];
    for i in 8..16 {
        a[i] = (i * 17) as u8;
        b[i] = (i * 17) as u8;
    }
    assert_eq!(reduce_trace_id(&a), reduce_trace_id(&b));
    b[15] ^= 1;
    assert_ne!(reduce_trace_id(&a), reduce_trace_id(&b));
}

#[test]
fn reduce_trace_id_of_high_only_identifier_is_zero() {
    let mut id = [0u8; 16];
    id[0] = 1;
    assert_eq!(reduce_trace_id(&id), 0);
    assert_eq!(trace_id_decimal(&id), "0");
}

#[test]
fn encode_span_id_is_big_endian() {
    assert_eq!(encode_span_id(&[0, 0, 0, 0, 0, 0, 1, 2]), 258);
    assert_eq!(encode_span_id(&[1, 0, 0, 0, 0, 0, 0, 0]), 1u64 << 56);
    assert_eq!(encode_span_id(&[0xff; 8]), u64::MAX);
    assert_eq!(encode_span_id(&[0; 8]), 0);
    let bytes = [0x12, 0x34, 0x56, 0x78, 0x9a, 0xbc, 0xde, 0xf0];
    assert_eq!(encode_span_id(&bytes), u64::from_be_bytes(bytes));
    assert_eq!(u64_from_be(&bytes), 0x1234_5678_9abc_def0);
}

#[test]
fn to_decimal_exact_values() {
    assert_eq!(to_decimal(0), "0");
    assert_eq!(to_decimal(7), "7");
    assert_eq!(to_decimal(10), "10");
    assert_eq!(to_decimal(42), "42");
    assert_eq!(to_decimal(1_000_000), "1000000");
    assert_eq!(to_decimal(u64::MAX), "18446744073709551615");
}

#[test]
fn to_decimal_agrees_with_std() {
    let mut n: u64 = 1;
    for _ in 0..64 {
        assert_eq!(to_decimal(n), n.to_string());
        assert_eq!(to_decimal(n - 1), (n - 1).to_string());
        n = n.wrapping_mul(3).wrapping_add(n >> 3) | 1;
    }
}

#[test]
fn push_decimal_appends() {
    let mut s = String::from("id=");
    push_decimal(905, &mut s);
    assert_eq!(s, "id=905");
    push_decimal(0, &mut s);
    assert_eq!(s, "id=9050");
}

#[test]
fn span_id_decimal_round_trips() {
    let ids: [[u8; 8]; 4] = [
        [0, 0, 0, 0, 0, 0, 0, 1],
        [0xff; 8],
        [0x80, 0, 0, 0, 0, 0, 0, 0],
        [0x12, 0x34, 0x56, 0x78, 0x9a, 0xbc, 0xde, 0xf0],
    ];
    for id in ids.iter() {
        let text = span_id_decimal(id);
        assert_eq!(text.parse::<u64>().unwrap(), u64::from_be_bytes(*id));
        assert_eq!(parse_decimal(&text), Some(encode_span_id(id)));
    }
}

#[test]
fn decimal_strings_are_plain_digits() {
    let id = [0xfe, 0xdc, 0xba, 0x98, 0x76, 0x54, 0x32, 0x10];
    let text = span_id_decimal(&id);
    assert!(!text.is_empty());
    assert!(text.chars().all(|c| c.is_ascii_digit()));
    assert!(!text.starts_with('0'));
    assert_eq!(text, "18364758544493064720");
}

#[test]
fn parse_decimal_accepts_numerals() {
    assert_eq!(parse_decimal("0"), Some(0));
    assert_eq!(parse_decimal("42"), Some(42));
    assert_eq!(parse_decimal("007"), Some(7));
    assert_eq!(parse_decimal("18446744073709551615"), Some(u64::MAX));
}

#[test]
fn parse_decimal_rejects_everything_else() {
    assert_eq!(parse_decimal(""), None);
    assert_eq!(parse_decimal("-1"), None);
    assert_eq!(parse_decimal("+1"), None);
    assert_eq!(parse_decimal("12a"), None);
    assert_eq!(parse_decimal(" 1"), None);
    assert_eq!(parse_decimal("18446744073709551616"), None);
    assert_eq!(parse_decimal("99999999999999999999"), None);
}
