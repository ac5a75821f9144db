use sysenix::text::{is_white_space, trim};

#[test]
fn white_space_agrees_with_std_on_every_char() {
    for v in 0u32..=0x10FFFF {
        if let Some(c) = char::from_u32(v) {
            assert_eq!(is_white_space(c), c.is_whitespace(), "code point {v:#x}");
        }
    }
}

#[test]
fn trim_agrees_with_std() {
    let cases = [
        "",
        "   ",
        "  open Safari  ",
        "\t\nclick\u{3000}",
        "\u{85}a b\u{a0}",
        "no-space",
        " x",
        "x ",
        "\u{2028}\u{2029}",
        "é ü ",
    ];
    for case in cases {
        assert_eq!(trim(case), case.trim());
    }
}

#[test]
fn trim_twice_is_trim_once() {
    for case in ["  a  ", "\n\t", "b", " \u{200a}c d\u{2000} "] {
        assert_eq!(trim(trim(case)), trim(case));
    }
}
