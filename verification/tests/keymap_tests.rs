use keymap_detect::keymap::{
    keymap_text, on_keymap, DecodeError, Descriptor, KeymapFormat, ReadOutcome, Retrieval,
};

#[test]
fn format_from_wire() {
    assert_eq!(KeymapFormat::from_wire(0), KeymapFormat::NoKeymap);
    assert_eq!(KeymapFormat::from_wire(1), KeymapFormat::XkbV1);
    assert_eq!(KeymapFormat::from_wire(2), KeymapFormat::Other);
    assert_eq!(KeymapFormat::from_wire(u32::MAX), KeymapFormat::Other);
}

#[test]
fn only_the_text_format_is_text() {
    assert!(KeymapFormat::XkbV1.is_text());
    assert!(!KeymapFormat::NoKeymap.is_text());
    assert!(!KeymapFormat::Other.is_text());
}

#[test]
fn text_keymap_is_read_from_the_start_up_to_its_size() {
    assert_eq!(
        on_keymap(KeymapFormat::XkbV1, Descriptor { raw: 5 }, 4096),
        Retrieval::ReadThenRelease { resource: Descriptor { raw: 5 }, offset: 0, limit: 4096 }
    );
    assert_eq!(
        on_keymap(KeymapFormat::XkbV1, Descriptor { raw: 0 }, 0),
        Retrieval::ReadThenRelease { resource: Descriptor { raw: 0 }, offset: 0, limit: 0 }
    );
    assert_eq!(
        on_keymap(KeymapFormat::XkbV1, Descriptor { raw: -1 }, u32::MAX),
        Retrieval::ReadThenRelease { resource: Descriptor { raw: -1 }, offset: 0, limit: u32::MAX }
    );
}

#[test]
fn other_formats_are_released_unread() {
    assert_eq!(
        on_keymap(KeymapFormat::NoKeymap, Descriptor { raw: 5 }, 4096),
        Retrieval::Release { resource: Descriptor { raw: 5 } }
    );
    assert_eq!(
        on_keymap(KeymapFormat::Other, Descriptor { raw: 6 }, 4096),
        Retrieval::Release { resource: Descriptor { raw: 6 } }
    );
}

#[test]
fn text_is_the_bytes_that_were_read() {
    let source = "xkb_keymap { xkb_keycodes { }; };\n";
    let text = keymap_text(ReadOutcome::Contents(source.as_bytes().to_vec()), 4096);
    assert_eq!(text, Ok(source.to_string()));
}

#[test]
fn text_keeps_a_terminating_nul() {
    let text = keymap_text(ReadOutcome::Contents(b"xkb\0".to_vec()), 4);
    assert_eq!(text, Ok("xkb\0".to_string()));
}

#[test]
fn text_stops_at_the_limit() {
    let text = keymap_text(ReadOutcome::Contents(b"abcdefgh".to_vec()), 3);
    assert_eq!(text, Ok("abc".to_string()));
}

#[test]
fn text_of_exactly_the_limit_is_whole() {
    let text = keymap_text(ReadOutcome::Contents(b"abcdefgh".to_vec()), 8);
    assert_eq!(text, Ok("abcdefgh".to_string()));
}

#[test]
fn text_under_a_limit_of_zero_is_empty() {
    assert_eq!(keymap_text(ReadOutcome::Contents(b"abc".to_vec()), 0), Ok(String::new()));
    assert_eq!(keymap_text(ReadOutcome::Contents(vec![0xff]), 0), Ok(String::new()));
}

#[test]
fn empty_resource_gives_empty_text() {
    assert_eq!(keymap_text(ReadOutcome::Contents(Vec::new()), 4096), Ok(String::new()));
}

#[test]
fn multibyte_text_is_decoded() {
    let source = "gr\u{fc}\u{df}e \u{20ac} \u{1f600}";
    let text = keymap_text(ReadOutcome::Contents(source.as_bytes().to_vec()), 4096);
    assert_eq!(text, Ok(source.to_string()));
}

#[test]
fn bytes_that_are_not_text_are_an_error() {
    assert_eq!(keymap_text(ReadOutcome::Contents(vec![0xff, 0xfe]), 16), Err(DecodeError::NotText));
    assert_eq!(keymap_text(ReadOutcome::Contents(vec![b'a', 0x80]), 16), Err(DecodeError::NotText));
    assert_eq!(keymap_text(ReadOutcome::Contents(vec![0xc0, 0xaf]), 16), Err(DecodeError::NotText));
    assert_eq!(
        keymap_text(ReadOutcome::Contents(vec![0xed, 0xa0, 0x80]), 16),
        Err(DecodeError::NotText)
    );
}

#[test]
fn a_character_cut_by_the_limit_is_an_error() {
    let bytes = "a\u{20ac}".as_bytes().to_vec();
    assert_eq!(bytes.len(), 4);
    assert_eq!(keymap_text(ReadOutcome::Contents(bytes.clone()), 2), Err(DecodeError::NotText));
    assert_eq!(keymap_text(ReadOutcome::Contents(bytes.clone()), 3), Err(DecodeError::NotText));
    assert_eq!(keymap_text(ReadOutcome::Contents(bytes.clone()), 1), Ok("a".to_string()));
    assert_eq!(keymap_text(ReadOutcome::Contents(bytes), 4), Ok("a\u{20ac}".to_string()));
}

#[test]
fn bad_bytes_past_the_limit_do_not_matter() {
    let text = keymap_text(ReadOutcome::Contents(vec![b'o', b'k', 0xff]), 2);
    assert_eq!(text, Ok("ok".to_string()));
}

#[test]
fn failed_read_is_an_error() {
    assert_eq!(keymap_text(ReadOutcome::Failed, 4096), Err(DecodeError::Unreadable));
    assert_eq!(keymap_text(ReadOutcome::Failed, 0), Err(DecodeError::Unreadable));
}
