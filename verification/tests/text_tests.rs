use skry::text::{chars_of, is_white_space, push_decimal, trim_range};

#[test]
fn white_space_matches_std() {
    for c in ['\t', '\n', '\u{b}', '\u{c}', '\r', ' ', '\u{85}', '\u{a0}', '\u{1680}', '\u{2000}', '\u{200a}', '\u{2028}', '\u{2029}', '\u{202f}', '\u{205f}', '\u{3000}', 'a', '0', '\u{200b}', '\u{feff}', '\u{180e}'] {
        assert_eq!(is_white_space(c), c.is_whitespace(), "{:?}", c);
    }
}

#[test]
fn decimal_numerals() {
    for n in [0usize, 7, 10, 99, 100, 4096, usize::MAX] {
        let mut s = String::from("n=");
        push_decimal(&mut s, n);
        assert_eq!(s, format!("n={}", n));
    }
}

#[test]
fn trimmed_ranges() {
    let v = chars_of("  ab c \t");
    let (a, b) = trim_range(&v, 0, v.len());
    assert_eq!((a, b), (2, 6));
    let w = chars_of("   ");
    let (a, b) = trim_range(&w, 0, 3);
    assert_eq!(a, b);
}
