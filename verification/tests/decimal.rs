use industruino::decimal::{parse_bounded, parse_u16, parse_u32, push_decimal};

fn written(n: u32) -> String {
    let mut out = String::new();
    push_decimal(&mut out, n);
    out
}

#[test]
fn reads_plain_digits() {
    assert_eq!(parse_u32("0"), Some(0));
    assert_eq!(parse_u32("7"), Some(7));
    assert_eq!(parse_u32("42"), Some(42));
    assert_eq!(parse_u32("1234567890"), Some(1234567890));
}

#[test]
fn reads_a_leading_plus() {
    assert_eq!(parse_u32("+42"), Some(42));
    assert_eq!(parse_u32("+0"), Some(0));
}

#[test]
fn reads_leading_zeros() {
    assert_eq!(parse_u32("0042"), Some(42));
    assert_eq!(parse_u32("00000000000000000000000000000042"), Some(42));
    assert_eq!(parse_u32("+000"), Some(0));
}

#[test]
fn refuses_what_is_no_number() {
    assert_eq!(parse_u32(""), None);
    assert_eq!(parse_u32("+"), None);
    assert_eq!(parse_u32("-"), None);
    assert_eq!(parse_u32("-1"), None);
    assert_eq!(parse_u32("-0"), None);
    assert_eq!(parse_u32("++1"), None);
    assert_eq!(parse_u32("1+"), None);
    assert_eq!(parse_u32(" 42"), None);
    assert_eq!(parse_u32("42 "), None);
    assert_eq!(parse_u32("4a"), None);
    assert_eq!(parse_u32("a4"), None);
    assert_eq!(parse_u32("4.2"), None);
    assert_eq!(parse_u32("٤٢"), None);
    assert_eq!(parse_u32("request"), None);
}

#[test]
fn reads_up_to_the_largest_number_of_32_bits() {
    assert_eq!(parse_u32("4294967295"), Some(4294967295));
    assert_eq!(parse_u32("4294967296"), None);
    assert_eq!(parse_u32("4294967300"), None);
    assert_eq!(parse_u32("42949672950"), None);
    assert_eq!(parse_u32("99999999999999999999999999"), None);
}

#[test]
fn reads_a_port() {
    assert_eq!(parse_u16("1883"), Some(1883));
    assert_eq!(parse_u16("0"), Some(0));
    assert_eq!(parse_u16("65535"), Some(65535));
    assert_eq!(parse_u16("65536"), None);
    assert_eq!(parse_u16("+8883"), Some(8883));
    assert_eq!(parse_u16(""), None);
    assert_eq!(parse_u16("mqtt"), None);
}

#[test]
fn reads_up_to_a_given_bound() {
    assert_eq!(parse_bounded("10", 10), Some(10));
    assert_eq!(parse_bounded("11", 10), None);
    assert_eq!(parse_bounded("0", 0), Some(0));
    assert_eq!(parse_bounded("1", 0), None);
}

#[test]
fn reads_as_the_standard_library_does() {
    let texts = [
        "", "+", "-", "0", "+0", "-0", "1", "+1", "-1", "007", "42", " 42", "42 ", "4 2", "4_2",
        "0x10", "1e3", "4294967295", "4294967296", "+4294967295", "65535", "65536", "+65535",
        "18446744073709551616", "abc", "１２", "12\n",
    ];
    for text in texts {
        assert_eq!(parse_u32(text), text.parse::<u32>().ok(), "{:?}", text);
        assert_eq!(parse_u16(text), text.parse::<u16>().ok(), "{:?}", text);
    }
}

#[test]
fn writes_the_shortest_decimal_text() {
    assert_eq!(written(0), "0");
    assert_eq!(written(7), "7");
    assert_eq!(written(10), "10");
    assert_eq!(written(42), "42");
    assert_eq!(written(1000), "1000");
    assert_eq!(written(4294967295), "4294967295");
}

#[test]
fn writes_behind_what_is_there() {
    let mut out = String::from("reply/");
    push_decimal(&mut out, 43);
    assert_eq!(out, "reply/43");
}

#[test]
fn reads_back_what_it_wrote() {
    for n in [0u32, 1, 9, 10, 11, 99, 100, 101, 65535, 65536, 4294967294, 4294967295] {
        assert_eq!(parse_u32(&written(n)), Some(n));
        assert_eq!(written(n), n.to_string());
    }
}

/// Texts over a small alphabet, in a fixed pseudo-random order.
fn sample_texts(count: usize) -> Vec<String> {
    let alphabet: Vec<char> = "0123456789+- a".chars().collect();
    let mut state: u64 = 0x2545F4914F6CDD1D;
    let mut texts = Vec::new();
    for _ in 0..count {
        state = state.wrapping_mul(6364136223846793005).wrapping_add(1442695040888963407);
        let length = ((state >> 33) % 13) as usize;
        let mut text = String::new();
        for _ in 0..length {
            state = state.wrapping_mul(6364136223846793005).wrapping_add(1442695040888963407);
            let weight = (state >> 33) % 40;
            let index = if weight < 30 { (weight % 10) as usize } else { (weight - 30 + 4) as usize };
            text.push(alphabet[index]);
        }
        texts.push(text);
    }
    texts
}

#[test]
fn reads_many_texts_as_the_standard_library_does() {
    for text in sample_texts(20000) {
        assert_eq!(parse_u32(&text), text.parse::<u32>().ok(), "{:?}", text);
        assert_eq!(parse_u16(&text), text.parse::<u16>().ok(), "{:?}", text);
    }
}

#[test]
fn writes_many_numbers_as_the_standard_library_does() {
    let mut n: u32 = 1;
    for _ in 0..5000 {
        n = n.wrapping_mul(1664525).wrapping_add(1013904223);
        for value in [n, n >> 8, n >> 16, n >> 24] {
            assert_eq!(written(value), value.to_string());
            assert_eq!(parse_u32(&written(value)), Some(value));
        }
    }
}
