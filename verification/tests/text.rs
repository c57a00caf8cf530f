use remote_projects::text::{
    begins_with, char_is_space, contains_part, decimal_of, ends_with, insert_text, join,
    lowercase, parse_port, replace_char, rsplit_once, same_ignoring_case, signed_decimal_of,
    split_at_any, split_at_char, split_lines, split_once, split_words, stands_before, take_bytes,
    text_begins, text_contains, trim_text,
};

fn chars(text: &str) -> Vec<char> {
    text.chars().collect()
}

fn shown(parts: Vec<&[char]>) -> Vec<String> {
    parts.into_iter().map(|p| p.iter().collect()).collect()
}

const TEXTS: [&str; 12] = [
    "",
    " ",
    "a",
    " a b\tc ",
    "a\r\nb\nc\r",
    "\n\n",
    "\u{3000}wide\u{3000}",
    "\u{85}x\u{200b}",
    "Gr\u{fc}\u{df}e \u{130}\u{3a3}",
    "a,b;;c\n,",
    "x@y@z",
    "\r",
];

#[test]
fn white_space_is_that_of_unicode() {
    for n in 0u32..=0x10ffff {
        if let Some(c) = char::from_u32(n) {
            assert_eq!(char_is_space(c), c.is_whitespace(), "{n:x}");
        }
    }
}

#[test]
fn texts_are_taken_apart_as_the_standard_library_does() {
    for text in TEXTS {
        let c = chars(text);
        assert_eq!(shown(split_words(&c)), text.split_whitespace().collect::<Vec<_>>());
        assert_eq!(shown(split_lines(&c)), text.lines().collect::<Vec<_>>());
        assert_eq!(shown(split_at_char(&c, ',')), text.split(',').collect::<Vec<_>>());
        assert_eq!(
            shown(split_at_any(&c, &[',', ';', '\n'])),
            text.split([',', ';', '\n']).collect::<Vec<_>>()
        );
        assert_eq!(trim_text(text), text.trim());
        assert_eq!(lowercase(text), text.to_lowercase());
        let parted = |p: Option<(&[char], &[char])>| {
            p.map(|(a, b)| (a.iter().collect::<String>(), b.iter().collect::<String>()))
        };
        let owned = |p: Option<(&str, &str)>| p.map(|(a, b)| (a.to_string(), b.to_string()));
        assert_eq!(parted(split_once(&c, '@')), owned(text.split_once('@')));
        assert_eq!(parted(rsplit_once(&c, '@')), owned(text.rsplit_once('@')));
        assert_eq!(
            replace_char(&c, ' ', '_').into_iter().collect::<String>(),
            text.replace(' ', "_")
        );
        for part in TEXTS {
            let p = chars(part);
            assert_eq!(contains_part(&c, &p), text.contains(part));
            assert_eq!(text_contains(text, part), text.contains(part));
            assert_eq!(begins_with(&c, &p), text.starts_with(part));
            assert_eq!(text_begins(text, part), text.starts_with(part));
            assert_eq!(ends_with(&c, &p), text.ends_with(part));
            assert_eq!(same_ignoring_case(&c, &p), text.eq_ignore_ascii_case(part));
            assert_eq!(stands_before(&c, &p), text < part);
        }
    }
}

#[test]
fn ports_are_read_as_numbers_are() {
    for text in [
        "", "0", "22", "+22", "-0", "-1", "65535", "65536", "00000080", "99999999999999999999",
        "+", "-", " 1", "1 ", "1a", "++1",
    ] {
        assert_eq!(parse_port(&chars(text)), text.parse::<u16>().ok(), "{text}");
    }
    for port in 0..=u16::MAX {
        assert_eq!(parse_port(&chars(&decimal_of(port as u64))), Some(port));
    }
}

#[test]
fn numbers_are_written() {
    assert_eq!(decimal_of(0), "0");
    assert_eq!(decimal_of(u64::MAX), u64::MAX.to_string());
    assert_eq!(signed_decimal_of(i32::MIN), i32::MIN.to_string());
    assert_eq!(signed_decimal_of(7), "7");
}

#[test]
fn texts_are_joined() {
    let list = vec!["a".to_string(), "b".to_string()];
    assert_eq!(join(&list, ", "), "a, b");
    assert_eq!(join(&Vec::new(), ", "), "");
}

#[test]
fn bytes_are_counted() {
    let text = chars("a\u{e9}b");
    assert_eq!(take_bytes(&text, 1).iter().collect::<String>(), "a");
    assert_eq!(take_bytes(&text, 3).iter().collect::<String>(), "a\u{e9}");
    assert_eq!(take_bytes(&text, 9).iter().collect::<String>(), "a\u{e9}b");
}

#[test]
fn texts_are_kept_in_order_and_once() {
    let mut list = Vec::new();
    for text in ["b", "a", "c", "a", ""] {
        insert_text(&mut list, text.to_string());
    }
    assert_eq!(list, vec!["", "a", "b", "c"]);
}
