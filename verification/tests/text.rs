use friday::arthas::attach::validate_pod_ip;
use friday::arthas::ip::{ip, ipv4, ipv6};
use friday::exec::ssh::shell_quote_single;
use friday::text::{
    begins_with, filled_lines_of, has, i64_text, is_white_char, lines_of, parse_number,
    span_text, split_at_first, split_text, trim, u64_text, words_of, Sep,
};

const SAMPLES: [&str; 16] = [
    "",
    " ",
    "\n",
    "a",
    " a b\tc \n",
    "a\r\nb\rc\n\n",
    "\r\n",
    "x\r",
    "一 二\u{3000}三\u{85}",
    "\u{a0}nbsp\u{2003}em\u{200b}zero",
    "a---b---c",
    "---",
    "12,34,,56,",
    "line one\nline two",
    "tail\n\r\n",
    "\u{feff}bom \u{1680}ogham",
];

#[test]
fn texts_are_cut_as_the_standard_library_cuts_them() {
    for s in SAMPLES {
        assert_eq!(trim(s), s.trim(), "{s:?}");
        assert_eq!(lines_of(s), s.lines().map(|l| l.to_string()).collect::<Vec<_>>(), "{s:?}");
        assert_eq!(
            words_of(s),
            s.split_whitespace().map(|w| w.to_string()).collect::<Vec<_>>(),
            "{s:?}"
        );
        assert_eq!(
            split_text(s, Sep::Char(',')),
            s.split(',').map(|w| w.to_string()).collect::<Vec<_>>(),
            "{s:?}"
        );
        assert_eq!(
            filled_lines_of(s),
            s.lines().map(|l| l.trim()).filter(|l| !l.is_empty()).collect::<Vec<_>>(),
            "{s:?}"
        );
        assert_eq!(
            split_at_first(s, "---"),
            s.split_once("---").map(|(a, b)| (a.to_string(), b.to_string())),
            "{s:?}"
        );
        for t in SAMPLES {
            assert_eq!(has(s, t), s.contains(t), "{s:?} {t:?}");
            assert_eq!(begins_with(s, t), s.starts_with(t), "{s:?} {t:?}");
        }
    }
}

#[test]
fn blanks_are_those_of_the_standard_library() {
    for n in 0..0x11_0000u32 {
        if let Some(c) = char::from_u32(n) {
            assert_eq!(is_white_char(c), c.is_whitespace(), "U+{n:04X}");
        }
    }
}

#[test]
fn numbers_are_read_as_the_standard_library_reads_them() {
    for s in [
        "", "0", "00", "7", "+7", "-7", "++7", "+", "65535", "65536", "4294967295", "4294967296",
        "18446744073709551615", "18446744073709551616", "0000000000000000000000012", "1 ", " 1",
        "1_0", "٣", "12a",
    ] {
        assert_eq!(parse_number(s, u16::MAX as u64), s.parse::<u16>().ok().map(u64::from), "{s:?}");
        assert_eq!(parse_number(s, u32::MAX as u64), s.parse::<u32>().ok().map(u64::from), "{s:?}");
        assert_eq!(parse_number(s, u64::MAX), s.parse::<u64>().ok(), "{s:?}");
    }
}

#[test]
fn numbers_are_written_and_read_back() {
    for n in [0, 1, 9, 10, 99, 100, 65535, u64::MAX] {
        assert_eq!(u64_text(n), n.to_string());
        assert_eq!(parse_number(u64_text(n).as_str(), u64::MAX), Some(n));
    }
    for i in [0, -1, 42, i64::MIN, i64::MAX] {
        assert_eq!(i64_text(i), i.to_string());
    }
}

#[test]
fn quoting_keeps_a_text_one_word() {
    assert_eq!(shell_quote_single("plain"), "'plain'");
    assert_eq!(shell_quote_single(""), "''");
    assert_eq!(shell_quote_single("it's"), r"'it'\''s'");
    assert_eq!(shell_quote_single("'"), r"''\'''");
}

#[test]
fn addresses_of_both_kinds_are_told_apart() {
    for s in ["0.0.0.0", "255.255.255.255", "10.244.1.5", "127.0.0.1"] {
        assert!(ipv4(s) && ip(s) && !ipv6(s), "{s}");
    }
    for s in [
        "::", "::1", "1::", "fd00::1", "2001:db8:0:0:0:0:2:1", "1:2:3:4:5:6:7:8", "ABCD::ef01",
        "::ffff:10.0.0.1", "1:2:3:4:5:6:10.0.0.1", "64:ff9b::192.0.2.33", "1:2:3:4:5:6:7::",
        "::2:3:4:5:6:7:8",
    ] {
        assert!(ipv6(s) && ip(s) && !ipv4(s), "{s}");
    }
    for s in [
        "", "1", "1.2.3", "1.2.3.4.5", "256.1.1.1", "01.2.3.4", "1.2.3.4 ", " 1.2.3.4", "1..2.3",
        ":", ":::", "1:2:3:4:5:6:7", "1:2:3:4:5:6:7:8:9", "12345::", "g::", "::1::", "fe80::1%eth0",
        "[::1]", "::1.2.3", "1:2:3:4:5:6:7:1.2.3.4", "::1.2.3.4:5", "10.0.0.1/24", "1:2:3:4:5:6:7:8::",
        "-1.2.3.4", "+1.2.3.4", "1.2.3.0004",
    ] {
        assert!(!ip(s), "{s}");
    }
}

#[test]
fn a_refused_address_is_shown_in_quotes() {
    assert_eq!(
        validate_pod_ip("a\"b"),
        Err("kubectl 返回的 PodIP 不是合法 IP: \"a\\\"b\"".to_string())
    );
}

#[test]
fn a_span_of_time_is_written_as_rust_writes_it() {
    let near = (0..2100).chain(9_900..10_100).chain([123_450, 3_600_000, u64::MAX]);
    for millis in near {
        let expected = format!("{:?}", std::time::Duration::from_millis(millis));
        assert_eq!(span_text(millis), expected);
    }
    assert_eq!(span_text(1050), "1.05s");
}
