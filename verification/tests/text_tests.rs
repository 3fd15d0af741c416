use ferrium::text::{parse_u64, push_decimal, trim_start_matching, IntErrorKind};

fn parse(s: &str) -> Result<u64, IntErrorKind> {
    let cs: Vec<char> = s.chars().collect();
    parse_u64(&cs)
}

#[test]
fn parse_u64_matches_from_str() {
    for s in ["0", "42", "+42", "007", "18446744073709551615", "18446744073709551616", "", "+", "-1", "1x", "99999999999999999999x", " 1"] {
        let expected = s.parse::<u64>();
        match (parse(s), expected) {
            (Ok(a), Ok(b)) => assert_eq!(a, b, "{s}"),
            (Err(k), Err(e)) => {
                let kind = match e.kind() {
                    std::num::IntErrorKind::Empty => IntErrorKind::Empty,
                    std::num::IntErrorKind::InvalidDigit => IntErrorKind::InvalidDigit,
                    std::num::IntErrorKind::PosOverflow => IntErrorKind::PosOverflow,
                    _ => panic!("unexpected kind"),
                };
                assert_eq!(k, kind, "{s}");
                assert_eq!(k.to_string(), e.to_string());
            }
            (a, b) => panic!("{s}: {a:?} vs {b:?}"),
        }
    }
}

#[test]
fn decimal_numerals() {
    for n in [0u64, 7, 10, 12345, u64::MAX] {
        let mut s = String::new();
        push_decimal(&mut s, n);
        assert_eq!(s, n.to_string());
    }
}

#[test]
fn trim_leading_slashes() {
    assert_eq!(trim_start_matching("//a/b", '/'), "a/b");
    assert_eq!(trim_start_matching("a", '/'), "a");
    assert_eq!(trim_start_matching("///", '/'), "");
}
