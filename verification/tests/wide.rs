use audio_router::wide::{as_unicode_str, ptr_as_unicode_str, RawUnicodeString};

fn utf16_units(s: &str) -> Vec<u16> {
    s.encode_utf16().collect()
}

#[test]
fn unit_count_is_byte_length_halved() {
    let buffer = utf16_units("Hello, world!");
    assert_eq!(buffer.len(), 13);
    let raw = RawUnicodeString {
        buffer,
        length: 13,
    };
    let view = as_unicode_str(&raw);
    assert_eq!(view.code_unit_count(), 6);
}

#[test]
fn unit_count_covers_the_whole_counted_buffer() {
    let buffer = utf16_units("Hello");
    let raw = RawUnicodeString {
        buffer,
        length: 10,
    };
    let view = as_unicode_str(&raw);
    assert_eq!(view.code_unit_count(), 5);
    assert_eq!(view.display_text(), "Hello");
}

#[test]
fn zero_length_gives_an_empty_view() {
    let raw = RawUnicodeString {
        buffer: utf16_units("ignored tail"),
        length: 0,
    };
    let view = as_unicode_str(&raw);
    assert_eq!(view.code_unit_count(), 0);
    assert_eq!(view.display_text(), "");
}

#[test]
fn null_source_gives_an_empty_view_not_an_error() {
    let view = ptr_as_unicode_str(None);
    assert_eq!(view.code_unit_count(), 0);
    assert_eq!(view.display_text(), "");
}

#[test]
fn present_source_is_read_like_a_direct_view() {
    let raw = RawUnicodeString {
        buffer: utf16_units("\\Registry\\Machine\\System"),
        length: 48,
    };
    let view = ptr_as_unicode_str(Some(&raw));
    assert_eq!(view.code_unit_count(), 24);
    assert_eq!(view.display_text(), "\\Registry\\Machine\\System");
}

#[test]
fn truncation_keeps_only_the_counted_prefix() {
    let raw = RawUnicodeString {
        buffer: utf16_units("Hello, world!"),
        length: 10,
    };
    let view = as_unicode_str(&raw);
    assert_eq!(view.code_unit_count(), 5);
    assert_eq!(view.display_text(), "Hello");
}

#[test]
fn invalid_utf16_is_decoded_lossily() {
    let raw = RawUnicodeString {
        buffer: vec![0x0048, 0xD800, 0x0069],
        length: 6,
    };
    let view = as_unicode_str(&raw);
    assert_eq!(view.code_unit_count(), 3);
    assert_eq!(view.display_text(), "H\u{FFFD}i");
}
