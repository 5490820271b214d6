use odbc_bind::text::Text;

#[test]
fn default_str() {
    let value = Text::new(8);
    assert_eq!(&b""[..], value.as_slice());
}

#[test]
fn make_str() {
    let mut value = Text::new(8);
    value.extend_from_slice(&b"foobar"[..]);
    assert_eq!(&b"foobar"[..], value.as_slice());
}

#[test]
fn text_stores_all_bytes_within_capacity() {
    let mut value = Text::new(6);
    value.extend_from_slice(b"foobar");
    assert_eq!(6, value.len());
    assert_eq!(&b"foobar"[..], value.as_slice());
    assert_eq!(6, value.capacity());
}

#[test]
fn text_truncates_silently_beyond_capacity() {
    let mut value = Text::new(4);
    value.extend_from_slice(b"foobar");
    assert_eq!(4, value.len());
    assert_eq!(&b"foob"[..], value.as_slice());
    assert_eq!(4, value.capacity());
}

#[test]
fn text_appends_across_calls_up_to_capacity() {
    let mut value = Text::new(8);
    value.extend_from_slice(b"foo");
    value.extend_from_slice(b"barbaz");
    assert_eq!(&b"foobarba"[..], value.as_slice());
}

#[test]
fn text_clear_keeps_capacity() {
    let mut value = Text::new(8);
    value.extend_from_slice(b"foobar");
    value.clear();
    assert_eq!(0, value.len());
    assert_eq!(8, value.capacity());
    assert_eq!(&b""[..], value.as_slice());
}

#[test]
fn text_duplicate_matches_original() {
    let mut value = Text::new(8);
    value.extend_from_slice(b"foobar");
    let copy = value.duplicate();
    assert_eq!(value.as_slice(), copy.as_slice());
    assert_eq!(value.capacity(), copy.capacity());
}
