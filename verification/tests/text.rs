use raytracer::text::{lines_bytes, parse_usize_bytes, split_bytes};

fn owned(parts: Vec<&[u8]>) -> Vec<Vec<u8>> {
    parts.into_iter().map(|p| p.to_vec()).collect()
}

#[test]
fn split_keeps_empty_fields() {
    assert_eq!(split_bytes(b"a b", 32), owned(vec![b"a", b"b"]));
    assert_eq!(split_bytes(b"a  b", 32), owned(vec![b"a" as &[u8], b"", b"b"]));
    assert_eq!(split_bytes(b" a ", 32), owned(vec![b"" as &[u8], b"a", b""]));
    assert_eq!(split_bytes(b"", 32), owned(vec![b"" as &[u8]]));
    assert_eq!(split_bytes(b"abc", 32), owned(vec![b"abc" as &[u8]]));
}

#[test]
fn split_on_slashes() {
    assert_eq!(split_bytes(b"1/2/3", 47), owned(vec![b"1" as &[u8], b"2", b"3"]));
    assert_eq!(split_bytes(b"1//3", 47), owned(vec![b"1" as &[u8], b"", b"3"]));
}

#[test]
fn lines_final_terminator_is_optional() {
    assert_eq!(lines_bytes(b"a\nb\n"), owned(vec![b"a" as &[u8], b"b"]));
    assert_eq!(lines_bytes(b"a\nb"), owned(vec![b"a" as &[u8], b"b"]));
    assert_eq!(lines_bytes(b""), owned(vec![]));
    assert_eq!(lines_bytes(b"\n"), owned(vec![b"" as &[u8]]));
    assert_eq!(lines_bytes(b"a\n\nb"), owned(vec![b"a" as &[u8], b"", b"b"]));
}

#[test]
fn lines_strip_carriage_returns_only_before_line_feeds() {
    assert_eq!(lines_bytes(b"a\r\nb\r\n"), owned(vec![b"a" as &[u8], b"b"]));
    assert_eq!(lines_bytes(b"a\rb\nc"), owned(vec![b"a\rb" as &[u8], b"c"]));
    assert_eq!(lines_bytes(b"a\r"), owned(vec![b"a\r" as &[u8]]));
}

#[test]
fn lines_match_the_standard_library() {
    for text in ["", "a", "a\n", "a\r\n", "\r\n", "a\nb\r\nc\rd\n", "x\n\n\ny"] {
        let expected: Vec<Vec<u8>> = text.lines().map(|l| l.as_bytes().to_vec()).collect();
        assert_eq!(lines_bytes(text.as_bytes()), expected, "on {:?}", text);
    }
}

#[test]
fn parse_usize_accepts_plain_and_plus_signed_numbers() {
    assert_eq!(parse_usize_bytes(b"0"), Some(0));
    assert_eq!(parse_usize_bytes(b"42"), Some(42));
    assert_eq!(parse_usize_bytes(b"+42"), Some(42));
    assert_eq!(parse_usize_bytes(b"007"), Some(7));
}

#[test]
fn parse_usize_rejects_junk() {
    assert_eq!(parse_usize_bytes(b""), None);
    assert_eq!(parse_usize_bytes(b"+"), None);
    assert_eq!(parse_usize_bytes(b"-1"), None);
    assert_eq!(parse_usize_bytes(b"1.5"), None);
    assert_eq!(parse_usize_bytes(b" 1"), None);
}

#[test]
fn parse_usize_rejects_overflow() {
    let max = usize::MAX.to_string();
    assert_eq!(parse_usize_bytes(max.as_bytes()), Some(usize::MAX));
    let over = format!("{}0", usize::MAX);
    assert_eq!(parse_usize_bytes(over.as_bytes()), None);
}

#[test]
fn parse_usize_matches_the_standard_library() {
    for text in ["0", "1", "+9", "18446744073709551615", "18446744073709551616", "99999999999999999999", "abc", ""] {
        let expected = text.parse::<usize>().ok();
        assert_eq!(parse_usize_bytes(text.as_bytes()), expected, "on {:?}", text);
    }
}
