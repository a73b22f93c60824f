use fastembed_bridge::{decode_array, decode_text, ErrorKind, TextRole};

#[test]
fn decode_text_takes_ascii() {
    let text = decode_text(b"hello world", TextRole::Text).ok().unwrap();
    assert_eq!(text, "hello world");
}

#[test]
fn decode_text_takes_multibyte_text() {
    let bytes = "h\u{e9}llo \u{4e16}\u{754c} \u{1f600}".as_bytes();
    let text = decode_text(bytes, TextRole::Text).ok().unwrap();
    assert_eq!(text, "h\u{e9}llo \u{4e16}\u{754c} \u{1f600}");
}

#[test]
fn decode_text_takes_the_empty_text() {
    let text = decode_text(b"", TextRole::Query).ok().unwrap();
    assert_eq!(text, "");
}

#[test]
fn decode_text_rejects_a_stray_byte() {
    let e = decode_text(&[0x61, 0xff, 0x62], TextRole::Text).err().unwrap();
    assert_eq!(e.kind, ErrorKind::InvalidEncoding);
    assert_eq!(e.message, "Invalid UTF-8 in text: invalid utf-8 sequence of 1 bytes from index 1");
}

#[test]
fn decode_text_rejects_a_cut_sequence() {
    let e = decode_text(&[0xe2, 0x82], TextRole::Text).err().unwrap();
    assert_eq!(e.kind, ErrorKind::InvalidEncoding);
    assert_eq!(e.message, "Invalid UTF-8 in text: incomplete utf-8 byte sequence from index 0");
}

#[test]
fn decode_text_rejects_an_overlong_encoding() {
    let e = decode_text(&[0xc0, 0x80], TextRole::Text).err().unwrap();
    assert_eq!(e.kind, ErrorKind::InvalidEncoding);
}

#[test]
fn decode_text_rejects_a_surrogate() {
    let e = decode_text(&[0xed, 0xa0, 0x80], TextRole::Text).err().unwrap();
    assert_eq!(e.kind, ErrorKind::InvalidEncoding);
}

#[test]
fn decode_text_words_the_error_by_role() {
    let bad: &[u8] = &[0xff];
    let detail = "invalid utf-8 sequence of 1 bytes from index 0";
    let e = decode_text(bad, TextRole::Path).err().unwrap();
    assert_eq!(e.message, format!("Invalid UTF-8 in path: {}", detail));
    let e = decode_text(bad, TextRole::Document).err().unwrap();
    assert_eq!(e.message, format!("Invalid UTF-8 in document: {}", detail));
    let e = decode_text(bad, TextRole::Query).err().unwrap();
    assert_eq!(e.message, format!("Invalid UTF-8 in query: {}", detail));
    let e = decode_text(bad, TextRole::ModelName).err().unwrap();
    assert_eq!(e.message, format!("Invalid model name: {}", detail));
}

#[test]
fn decode_array_takes_the_empty_array() {
    let texts: Vec<Option<&[u8]>> = vec![];
    let decoded = decode_array(&texts, TextRole::Text).ok().unwrap();
    assert!(decoded.is_empty());
}

#[test]
fn decode_array_keeps_the_order() {
    let texts: Vec<Option<&[u8]>> = vec![Some(b"one"), Some(b""), Some("dr\u{e9}i".as_bytes())];
    let decoded = decode_array(&texts, TextRole::Text).ok().unwrap();
    assert_eq!(decoded, vec!["one".to_string(), "".to_string(), "dr\u{e9}i".to_string()]);
}

#[test]
fn decode_array_rejects_a_null_element() {
    let texts: Vec<Option<&[u8]>> = vec![Some(b"one"), None, Some(b"three")];
    let e = decode_array(&texts, TextRole::Text).err().unwrap();
    assert_eq!(e.kind, ErrorKind::NullElement);
    assert_eq!(e.message, "Null text pointer in array");
}

#[test]
fn decode_array_rejects_an_array_of_one_null() {
    let texts: Vec<Option<&[u8]>> = vec![None];
    let e = decode_array(&texts, TextRole::Text).err().unwrap();
    assert_eq!(e.kind, ErrorKind::NullElement);
}

#[test]
fn decode_array_words_the_null_element_by_role() {
    let texts: Vec<Option<&[u8]>> = vec![None];
    let e = decode_array(&texts, TextRole::Path).err().unwrap();
    assert_eq!(e.message, "Null path pointer in array");
    let e = decode_array(&texts, TextRole::Document).err().unwrap();
    assert_eq!(e.message, "Null document pointer in array");
}

#[test]
fn decode_array_rejects_bytes_that_are_not_utf8() {
    let texts: Vec<Option<&[u8]>> = vec![Some(b"fine"), Some(&[0x80])];
    let e = decode_array(&texts, TextRole::Document).err().unwrap();
    assert_eq!(e.kind, ErrorKind::InvalidEncoding);
    assert_eq!(
        e.message,
        "Invalid UTF-8 in document: invalid utf-8 sequence of 1 bytes from index 0"
    );
}

#[test]
fn decode_array_reports_the_first_offender_when_a_null_comes_first() {
    let texts: Vec<Option<&[u8]>> = vec![None, Some(&[0xff])];
    let e = decode_array(&texts, TextRole::Text).err().unwrap();
    assert_eq!(e.kind, ErrorKind::NullElement);
}

#[test]
fn decode_array_reports_the_first_offender_when_bad_bytes_come_first() {
    let texts: Vec<Option<&[u8]>> = vec![Some(&[0xff]), None];
    let e = decode_array(&texts, TextRole::Text).err().unwrap();
    assert_eq!(e.kind, ErrorKind::InvalidEncoding);
}

#[test]
fn decode_array_reports_the_first_of_two_bad_texts() {
    let texts: Vec<Option<&[u8]>> = vec![Some(&[0x61, 0x62, 0xff]), Some(&[0xff])];
    let e = decode_array(&texts, TextRole::Text).err().unwrap();
    assert_eq!(e.message, "Invalid UTF-8 in text: invalid utf-8 sequence of 1 bytes from index 2");
}
