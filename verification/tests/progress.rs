use override_cache::progress::{format_entry, parse_lines, ProgressError};

fn log(entries: &[&str]) -> Vec<u8> {
    let mut content = Vec::new();
    for entry in entries {
        content.extend(format_entry(entry));
    }
    content
}

fn lines(content: &[u8]) -> Vec<String> {
    parse_lines(content).unwrap()
}

#[test]
fn entry_ends_in_a_line_feed() {
    assert_eq!(format_entry("abc"), b"abc\n".to_vec());
    assert_eq!(format_entry(""), b"\n".to_vec());
    assert_eq!(format_entry("\u{e9}"), vec![0xc3, 0xa9, 10]);
}

#[test]
fn one_line_entries_are_read_back() {
    let entries = ["first", "", "\u{20ac} 5", "\rinner\rreturns", "last"];
    assert_eq!(lines(&log(&entries)), entries);
}

#[test]
fn entries_are_appended_to_what_is_there() {
    let mut content = b"old\r\nolder\n".to_vec();
    content.extend(log(&["new"]));
    assert_eq!(lines(&content), ["old", "older", "new"]);
    let mut unfinished = b"old\nhal".to_vec();
    unfinished.extend(log(&["f", "new"]));
    assert_eq!(lines(&unfinished), ["old", "half", "new"]);
}

#[test]
fn entries_of_several_lines_are_split() {
    assert_eq!(lines(&log(&["a\nb", "c\r"])), ["a", "b", "c"]);
    assert_eq!(lines(&log(&["\n"])), ["", ""]);
}

#[test]
fn line_ends() {
    assert!(lines(b"").is_empty());
    assert_eq!(lines(b"\n"), [""]);
    assert_eq!(lines(b"\r\n"), [""]);
    assert_eq!(lines(b"a"), ["a"]);
    assert_eq!(lines(b"a\r"), ["a\r"]);
    assert_eq!(lines(b"a\r\r\nb"), ["a\r", "b"]);
    assert_eq!(lines(b"a\n\nb\n"), ["a", "", "b"]);
}

#[test]
fn bytes_that_are_no_text_are_refused() {
    assert_eq!(parse_lines(&[b'a', 10, 0xff, 10]), Err(ProgressError::InvalidUtf8));
    assert_eq!(parse_lines(&[0xc3, 10, 0xa9, 10]), Err(ProgressError::InvalidUtf8));
    assert_eq!(parse_lines(&[0xe2, 0x82]), Err(ProgressError::InvalidUtf8));
}
