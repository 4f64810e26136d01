use codex_events::sse::parse_sse_events;
use codex_events::text::{
    characters, chars_contain, is_blank, is_white_space, lowered, same_text, text_is, trim,
};

fn data(body: &[u8]) -> Vec<String> {
    parse_sse_events(body)
        .into_iter()
        .map(|event| event.data)
        .collect()
}

#[test]
fn texts_are_compared_and_searched() {
    assert!(same_text("", ""));
    assert!(same_text("gr\u{fc}n", "gr\u{fc}n"));
    assert!(!same_text("ab", "ac"));
    assert!(!same_text("ab", "abc"));
    assert!(text_is(Some("a"), "a"));
    assert!(!text_is(None, ""));
    assert!(chars_contain(&characters(""), ""));
    assert!(chars_contain(&characters("aaab"), "aab"));
    assert!(chars_contain(&characters("x\u{1f600}y"), "\u{1f600}y"));
    assert!(!chars_contain(&characters("ab"), "abc"));
    assert!(!chars_contain(&characters("abab"), "ba b"));
}

#[test]
fn lower_case_is_that_of_ascii() {
    for text in ["", "AZ az", "@[`{", "\u{c4}\u{e4}K\u{212a}", "Rate LIMIT 42"] {
        let expected: Vec<char> = text.to_ascii_lowercase().chars().collect();
        assert_eq!(lowered(text), expected);
    }
}

#[test]
fn trimming_agrees_with_white_space() {
    for text in [
        "",
        " ",
        " a b ",
        "\t\r\n\u{b}\u{c}x",
        "x\u{85}\u{a0}\u{1680}\u{2000}\u{200a}\u{2028}\u{2029}\u{202f}\u{205f}\u{3000}",
        "\u{200b}x\u{feff}",
        "\u{3000}",
    ] {
        assert_eq!(trim(text), text.trim());
        assert_eq!(is_blank(text), text.trim().is_empty());
    }
    for code in 0..=0x10ffff_u32 {
        if let Some(c) = char::from_u32(code) {
            assert_eq!(is_white_space(c), c.is_whitespace());
        }
    }
}

#[test]
fn events_are_read_back_as_they_were_framed() {
    assert_eq!(
        data(b"data: first\n\ndata:  second \n\ndata: \n\n"),
        ["first", " second ", ""]
    );
    let texts = ["gr\u{fc}n", "\u{1f600} ", "{\"a\":1}"];
    let body: String = texts.iter().map(|text| format!("data: {text}\n\n")).collect();
    assert_eq!(data(body.as_bytes()), texts);
}

#[test]
fn event_fields_and_line_ends() {
    assert_eq!(data(b"data: a\rdata:b\r\n\r\n"), ["a\nb"]);
    assert_eq!(data(b"data\n\n"), [""]);
    assert_eq!(data(b"event: x\nid: 1\n: data: c\n\n"), Vec::<String>::new());
    assert_eq!(data(b"datax: 1\ndata : 2\n data: 3\n\n"), Vec::<String>::new());
    assert_eq!(data(b"\n\n\ndata: a\n\n\n"), ["a"]);
    assert_eq!(data(b"data: cut"), Vec::<String>::new());
    assert_eq!(data(b"\xef\xbb\xbfdata: marked\n\n"), ["marked"]);
    assert_eq!(data(b"data: gr\xc3\xbcn \xff\n\n"), ["gr\u{fc}n \u{fffd}"]);
}
