use openpacketloss_server::{decimal, parse_unsigned, ParseIntError};

#[test]
fn decimal_writes_numbers_as_std_does() {
    for n in [0, 1, 9, 10, 99, 100, 65535, 1_000_000, u64::MAX - 1, u64::MAX] {
        assert_eq!(decimal(n), n.to_string());
    }
    assert_eq!(decimal(10), "10");
}

#[test]
fn reading_a_written_number_gives_it_back() {
    for n in [0, 7, 10, 123, 65535, 65536, u64::MAX] {
        assert_eq!(parse_unsigned(&decimal(n), u64::MAX), Ok(n));
    }
}

#[test]
fn each_parse_error_has_its_text() {
    assert_eq!(parse_unsigned("", 9), Err(ParseIntError::Empty));
    assert_eq!(parse_unsigned("+", 9), Err(ParseIntError::InvalidDigit));
    assert_eq!(parse_unsigned("-1", 9), Err(ParseIntError::InvalidDigit));
    assert_eq!(parse_unsigned(" 1", 9), Err(ParseIntError::InvalidDigit));
    assert_eq!(parse_unsigned("10", 9), Err(ParseIntError::PosOverflow));
    assert_eq!(parse_unsigned("+7", 9), Ok(7));
    assert_eq!(parse_unsigned("007", 9), Ok(7));
}

#[test]
fn ports_are_read_as_std_reads_them() {
    let texts = [
        "", "+", "-", "0", "+0", "8080", "65535", "65536", "+65535", "++1", "1+", "70000x",
        "9999x", "99999x", "x99999", "-0", "1 ", "\t1", "1_000", "0x10", "000000000001", "é", "١",
        "655350000000000000000000000000",
    ];
    for text in texts {
        let ours = parse_unsigned(text, u16::MAX as u64).map(|n| n as u16);
        match (ours, text.parse::<u16>()) {
            (Ok(a), Ok(b)) => assert_eq!(a, b),
            (Err(a), Err(b)) => {
                let expected = match b.kind() {
                    std::num::IntErrorKind::Empty => ParseIntError::Empty,
                    std::num::IntErrorKind::InvalidDigit => ParseIntError::InvalidDigit,
                    std::num::IntErrorKind::PosOverflow => ParseIntError::PosOverflow,
                    other => panic!("unexpected {:?} for {:?}", other, text),
                };
                assert_eq!(a, expected, "{:?}", text);
            }
            (a, b) => panic!("{:?} against {:?} for {:?}", a, b, text),
        }
    }
}

#[test]
fn large_numbers_are_read_as_std_reads_them() {
    for text in ["18446744073709551615", "18446744073709551616", "18446744073709551609", "99999999999999999999"] {
        assert_eq!(parse_unsigned(text, u64::MAX).ok(), text.parse::<u64>().ok(), "{}", text);
    }
}
