use fampp::decimal::{format_decimal, is_space_char, parse_pid};

#[test]
fn plain_numbers() {
    assert_eq!(parse_pid("0"), Some(0));
    assert_eq!(parse_pid("7"), Some(7));
    assert_eq!(parse_pid("4242"), Some(4242));
    assert_eq!(parse_pid("007"), Some(7));
}

#[test]
fn white_space_around_the_number_is_ignored() {
    assert_eq!(parse_pid(" 12 \n"), Some(12));
    assert_eq!(parse_pid("\t12\r\n"), Some(12));
    assert_eq!(parse_pid("\u{3000}12\u{a0}"), Some(12));
    assert_eq!(parse_pid("1 2"), None);
}

#[test]
fn one_plus_sign_is_accepted() {
    assert_eq!(parse_pid("+5"), Some(5));
    assert_eq!(parse_pid(" +5 "), Some(5));
    assert_eq!(parse_pid("++5"), None);
    assert_eq!(parse_pid("+"), None);
    assert_eq!(parse_pid("+ 5"), None);
    assert_eq!(parse_pid("5+"), None);
}

#[test]
fn what_is_no_number_is_refused() {
    assert_eq!(parse_pid(""), None);
    assert_eq!(parse_pid("   "), None);
    assert_eq!(parse_pid("-5"), None);
    assert_eq!(parse_pid("-0"), None);
    assert_eq!(parse_pid("abc"), None);
    assert_eq!(parse_pid("12a"), None);
    assert_eq!(parse_pid("1_000"), None);
    assert_eq!(parse_pid("0x10"), None);
    assert_eq!(parse_pid("1.5"), None);
    assert_eq!(parse_pid("\u{ff11}\u{ff12}"), None);
}

#[test]
fn the_number_has_to_fit_in_32_bits() {
    assert_eq!(parse_pid("4294967295"), Some(4294967295));
    assert_eq!(parse_pid("4294967296"), None);
    assert_eq!(parse_pid("42949672950"), None);
    assert_eq!(parse_pid("99999999999999999999999999999999999999"), None);
    assert_eq!(parse_pid("00000000000000000000000000000000000042"), Some(42));
}

#[test]
fn parse_agrees_with_the_standard_library() {
    let inputs = [
        "", " ", "0", "1", "+1", "-1", "12\n", "\n12", " 4294967295\t", "4294967296",
        "18446744073709551616", "1e3", "+", "-", "+-1", "١٢", "12 34", "\u{2003}77\u{2028}",
        "\u{200b}77", "0000", "+0", "٣", "9999999999", "4294967299",
    ];
    for input in inputs {
        assert_eq!(parse_pid(input), input.trim().parse::<u32>().ok(), "{:?}", input);
    }
}

#[test]
fn white_space_is_what_the_standard_library_calls_so() {
    let mut code: u32 = 0;
    while code <= 0x10FFFF {
        if let Some(c) = char::from_u32(code) {
            assert_eq!(is_space_char(c), c.is_whitespace(), "{:x}", code);
        }
        code += 1;
    }
}

#[test]
fn numbers_are_written_without_sign_or_leading_zeros() {
    assert_eq!(format_decimal(0), "0");
    assert_eq!(format_decimal(9), "9");
    assert_eq!(format_decimal(10), "10");
    assert_eq!(format_decimal(8001), "8001");
    assert_eq!(format_decimal(1234567890), "1234567890");
    assert_eq!(format_decimal(4294967295), "4294967295");
}

#[test]
fn what_was_written_is_read_back() {
    let samples: [u32; 9] = [0, 1, 9, 10, 99, 100, 65535, 4194304, 4294967295];
    for n in samples {
        assert_eq!(format_decimal(n), n.to_string());
        assert_eq!(parse_pid(&format_decimal(n)), Some(n));
    }
}

fn next_random(state: &mut u64) -> u64 {
    *state = state.wrapping_mul(6364136223846793005).wrapping_add(1442695040888963407);
    *state >> 33
}

#[test]
fn parse_agrees_with_the_standard_library_on_many_texts() {
    let alphabet = [
        '0', '1', '2', '4', '9', '+', '-', ' ', '\n', '\t', 'a', '_', '\u{3000}', '\u{a0}', '０',
    ];
    let mut state: u64 = 42;
    for _ in 0..20000 {
        let len = next_random(&mut state) % 13;
        let mut text = String::new();
        for _ in 0..len {
            let pick = next_random(&mut state) as usize % alphabet.len();
            text.push(alphabet[pick]);
        }
        assert_eq!(parse_pid(&text), text.trim().parse::<u32>().ok(), "{:?}", text);
    }
}

#[test]
fn numbers_are_written_as_the_standard_library_writes_them() {
    let mut state: u64 = 7;
    for _ in 0..20000 {
        let n = next_random(&mut state) as u32;
        assert_eq!(format_decimal(n), n.to_string());
        assert_eq!(parse_pid(&format_decimal(n)), Some(n));
    }
}
