use webhook2amqp::textenc::{ascii_lower, ascii_upper, body_text, clone_bytes, utf8_ok};

#[test]
fn utf8_accepts_ascii() {
    assert!(utf8_ok(b"hello world"));
    assert!(utf8_ok(b""));
}

#[test]
fn utf8_accepts_multibyte() {
    assert!(utf8_ok("h\u{e9}llo \u{2713} \u{1f980}".as_bytes()));
}

#[test]
fn utf8_rejects_lone_continuation() {
    assert!(!utf8_ok(&[0x80]));
    assert!(!utf8_ok(&[0xbf, 0x20]));
}

#[test]
fn utf8_rejects_truncated_sequences() {
    assert!(!utf8_ok(&[0xe2, 0x9c]));
    assert!(!utf8_ok(&[0xc3]));
    assert!(!utf8_ok(&[0xf0, 0x9f, 0xa6]));
}

#[test]
fn utf8_rejects_bad_continuation() {
    assert!(!utf8_ok(&[0xc3, 0x28]));
    assert!(!utf8_ok(&[0xe2, 0x28, 0xa1]));
}

#[test]
fn utf8_rejects_overlong_encodings() {
    assert!(!utf8_ok(&[0xc0, 0x80]));
    assert!(!utf8_ok(&[0xc1, 0xbf]));
    assert!(!utf8_ok(&[0xe0, 0x80, 0x80]));
    assert!(!utf8_ok(&[0xf0, 0x80, 0x80, 0x80]));
}

#[test]
fn utf8_rejects_surrogates() {
    assert!(!utf8_ok(&[0xed, 0xa0, 0x80]));
    assert!(!utf8_ok(&[0xed, 0xbf, 0xbf]));
}

#[test]
fn utf8_rejects_beyond_last_scalar() {
    assert!(!utf8_ok(&[0xf4, 0x90, 0x80, 0x80]));
    assert!(!utf8_ok(&[0xf8, 0x80, 0x80, 0x80]));
    assert!(!utf8_ok(&[0xff]));
}

#[test]
fn utf8_agrees_with_std() {
    let samples: Vec<Vec<u8>> = vec![
        b"plain".to_vec(),
        "\u{7f}\u{80}\u{7ff}\u{800}\u{ffff}\u{10000}\u{10ffff}".as_bytes().to_vec(),
        vec![0xed, 0x9f, 0xbf],
        vec![0xee, 0x80, 0x80],
        vec![0xf4, 0x8f, 0xbf, 0xbf],
        vec![0xc2, 0x80],
        vec![0xc2, 0x7f],
        vec![0xe1, 0x80],
        vec![0x41, 0xc2],
    ];
    for s in samples {
        assert_eq!(utf8_ok(&s), std::str::from_utf8(&s).is_ok());
    }
}

#[test]
fn body_text_decodes_valid_bytes() {
    assert_eq!(body_text(&b"ok \xe2\x9c\x93".to_vec()).unwrap(), "ok \u{2713}");
    assert_eq!(body_text(&Vec::new()).unwrap(), "");
}

#[test]
fn body_text_refuses_invalid_bytes() {
    assert!(body_text(&vec![0xff, 0xfe]).is_none());
    assert!(body_text(&vec![0x68, 0x69, 0x80]).is_none());
}

#[test]
fn lowercases_ascii() {
    assert_eq!(ascii_lower("Content-Type"), "content-type");
    assert_eq!(ascii_lower("X-REQUEST-ID"), "x-request-id");
    assert_eq!(ascii_lower("already_lower-123"), "already_lower-123");
}

#[test]
fn casing_touches_only_ascii_letters() {
    assert_eq!(ascii_lower("\u{dc}ber-Header"), "\u{dc}ber-header");
    assert_eq!(ascii_upper("gr\u{fc}n-id"), "GR\u{fc}N-ID");
    assert_eq!(ascii_lower("\u{2713}-OK"), "\u{2713}-ok");
}

#[test]
fn uppercases_ascii() {
    assert_eq!(ascii_upper("post"), "POST");
    assert_eq!(ascii_upper("GeT"), "GET");
}

#[test]
fn clones_bytes_exactly() {
    let v = vec![0u8, 1, 255, 128];
    assert_eq!(clone_bytes(&v), v);
}
