use nvrc::decimal::{read_u64, to_decimal};
use nvrc::text::{
    is_whitespace, same, split, split_once, split_whitespace, starts_with, strip_prefix,
    strip_suffix, trim,
};

const SAMPLES: [&str; 14] = [
    "",
    " ",
    "=",
    "a",
    "a=b",
    "=b=c,",
    ",,a,,b,",
    "  two  words \n",
    "\u{a0}x\u{3000}y\u{85}",
    "kata.addon.coco.verity_params=root_hash=1,salt=2",
    "kata.addon.verity_params",
    "\u{e9}t\u{e9}=\u{1f600},\u{1f600}",
    "\u{200b}zero width\u{feff}",
    "line\r\nline\u{2028}line",
];

#[test]
fn whitespace_is_that_of_unicode() {
    for c in '\0'..=char::MAX {
        assert_eq!(is_whitespace(c), c.is_whitespace(), "{c:?}");
    }
}

#[test]
fn strings_are_taken_apart_as_the_standard_library_does() {
    for s in SAMPLES {
        assert_eq!(trim(s), s.trim());
        assert_eq!(split_whitespace(s), s.split_whitespace().collect::<Vec<&str>>());
        for c in ['=', ',', ' ', '\u{1f600}', 'z'] {
            assert_eq!(split_once(s, c), s.split_once(c));
            assert_eq!(split(s, c), s.split(c).collect::<Vec<&str>>());
        }
        for t in SAMPLES {
            assert_eq!(same(s, t), s == t);
        }
        for t in ["", "a", "kata.addon.", ".verity_params", " ", ",", "\u{e9}"] {
            assert_eq!(strip_prefix(s, t), s.strip_prefix(t));
            assert_eq!(strip_suffix(s, t), s.strip_suffix(t));
            assert_eq!(starts_with(s, t), s.starts_with(t));
        }
    }
}

#[test]
fn numbers_are_written_and_read_as_the_standard_library_does() {
    for n in [0, 1, 9, 10, 99, 100, 4096, 96512, 1 << 32, u64::MAX - 1, u64::MAX] {
        assert_eq!(to_decimal(n), n.to_string());
        assert_eq!(read_u64(&to_decimal(n)), Some(n));
        assert_eq!(read_u64(&format!("+{n}")), Some(n));
    }
    for s in [
        "", "+", "-", "-0", "+-1", "0", "00", "1a", "a1", " 1", "1\n", "1.0", "\u{663}",
        "18446744073709551616", "184467440737095516150", "000000000000000000000000000001",
    ] {
        assert_eq!(read_u64(s), s.parse::<u64>().ok(), "{s:?}");
    }
}
