use nexustui::text::{
    chars_of, contains_text, push_decimal, remove_char, split_chars, starts_with_text,
    strip_leading_text, string_from_chars, trimmed,
};

const SAMPLES: [&str; 12] = [
    "",
    "   ",
    "abc",
    "  a b \t\n",
    "\u{3000}x\u{2028}",
    "\r\nline\r",
    "\u{85}mid dle\u{a0}",
    "📱 Phone (1.2.3.4)",
    "/pull /pull  x ",
    "a\u{200b}b",
    "\u{1680}\u{2000}\u{200a}\u{202f}\u{205f}z",
    "ünïcödé",
];

#[test]
fn trimming_matches_std() {
    for s in SAMPLES {
        assert_eq!(trimmed(s), s.trim(), "input {:?}", s);
    }
}

#[test]
fn containment_matches_std() {
    let needles = ["", "a", "b ", "📱", "(", "PANO", "line\r", "x\u{2028}"];
    for s in SAMPLES {
        for n in needles {
            assert_eq!(contains_text(s, n), s.contains(n), "{:?} in {:?}", n, s);
            assert_eq!(starts_with_text(s, n), s.starts_with(n), "{:?} at start of {:?}", n, s);
        }
    }
}

#[test]
fn leading_pattern_is_stripped_repeatedly() {
    assert_eq!(strip_leading_text("/pull /pull x", "/pull "), "x");
    assert_eq!(strip_leading_text("/pullx", "/pull "), "/pullx");
    for s in ["/send a", "/send /send b", "x /send ", "", "/send "] {
        assert_eq!(strip_leading_text(s, "/send "), s.trim_start_matches("/send "));
        assert_eq!(strip_leading_text(s, ""), s.trim_start_matches(""));
    }
}

#[test]
fn removing_a_character_matches_replace() {
    for s in ["📱 Xiaomi (1.2.3.4)", "📱📱a📱", "none", ""] {
        assert_eq!(remove_char(s, '📱'), s.replace("📱", ""));
    }
}

#[test]
fn decimal_notation_matches_to_string() {
    for n in [0u64, 7, 9, 10, 99, 100, 1234567, u64::MAX] {
        let mut s = String::from("n=");
        push_decimal(&mut s, n);
        assert_eq!(s, format!("n={}", n));
    }
}

#[test]
fn splitting_matches_std() {
    for s in ["", "a", "a\nb", "\n", "a\n\nb\n", "/x/y/"] {
        for sep in ['\n', '/'] {
            let pieces: Vec<String> =
                split_chars(&chars_of(s), sep).iter().map(|p| string_from_chars(p)).collect();
            let expected: Vec<String> = s.split(sep).map(|p| p.to_string()).collect();
            assert_eq!(pieces, expected);
        }
    }
}

#[test]
fn trimming_twice_changes_nothing() {
    for s in SAMPLES {
        let once = trimmed(s);
        assert_eq!(trimmed(&once), once);
    }
}
