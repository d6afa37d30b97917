use jscore::prelude::{JsChars, JsString, JsValue, Symbol};
use jscore::string::string_from_utf8_cstring;

#[test]
fn char_buffer_has_two_units() {
    assert_eq!(JsChars::from_char('a').as_slice(), &[0x61u16, 0][..]);
    assert_eq!(JsChars::from_char('\u{20AC}').as_slice(), &[0x20ACu16, 0][..]);
    assert_eq!(JsChars::from_char('\u{1F600}').as_slice(), &[0xD83Du16, 0xDE00][..]);
    assert_eq!(JsChars::from_char('\u{10FFFF}').as_slice(), &[0xDBFFu16, 0xDFFF][..]);
    assert_eq!(JsChars::from_char('\u{10000}').as_slice(), &[0xD800u16, 0xDC00][..]);
}

#[test]
fn char_buffer_is_encoding_padded_in_the_bmp() {
    for c in ['a', '\u{0}', '\u{FFFF}', '\u{10000}', '\u{1F600}'].iter() {
        let mut units = [0u16; 2];
        let encoded: Vec<u16> = c.encode_utf16(&mut units).to_vec();
        let buffer = JsChars::from_char(*c);
        assert_eq!(&buffer.as_slice()[..encoded.len()], &encoded[..]);
        if encoded.len() == 1 {
            assert_eq!(buffer.as_slice()[1], 0);
        }
        assert_eq!(buffer.len(), 2);
    }
}

#[test]
fn str_encodes_as_utf16() {
    let samples = ["", "hello", "h\u{e9}llo", "\u{1F600} smile", "\u{FFFF}\u{10000}", "a\u{0}b"];
    for s in samples.iter() {
        let expected: Vec<u16> = s.encode_utf16().collect();
        let chars = JsChars::from_str(s);
        assert_eq!(chars.as_slice(), &expected[..]);
        assert_eq!(chars.len(), expected.len());
        assert_eq!(JsChars::from_string(s.to_string()).as_slice(), &expected[..]);
    }
    assert_eq!(JsChars::new().len(), 0);
}

#[test]
fn utf16_of_concatenation_is_concatenation() {
    let a = "ab\u{1F600}";
    let b = "\u{e9}c";
    let joined = format!("{}{}", a, b);
    let mut expected = JsChars::from_str(a).as_slice().to_vec();
    expected.extend_from_slice(JsChars::from_str(b).as_slice());
    assert_eq!(JsChars::from_str(&joined).as_slice(), &expected[..]);
}

#[test]
fn cstring_buffer_reads_up_to_terminator() {
    assert_eq!(string_from_utf8_cstring(b"hello\0junk"), Some("hello".to_string()));
    assert_eq!(string_from_utf8_cstring(b"\0"), Some(String::new()));
    assert_eq!(string_from_utf8_cstring("h\u{e9}\u{1F600}\0\0\0".as_bytes()), Some("h\u{e9}\u{1F600}".to_string()));
    assert_eq!(string_from_utf8_cstring(b"ok\0\xff"), Some("ok".to_string()));
}

#[test]
fn cstring_buffer_rejects_invalid_utf8() {
    assert_eq!(string_from_utf8_cstring(b"\xff\xfe\0"), None);
    assert_eq!(string_from_utf8_cstring(b"ab\xc3\0"), None);
    assert_eq!(string_from_utf8_cstring(b"\xed\xa0\x80\0"), None);
}

#[test]
fn cstring_round_trip() {
    for s in ["SyntaxError", "hello from js!", "\u{1F600}\u{e9}"].iter() {
        let mut buf = s.as_bytes().to_vec();
        buf.push(0);
        buf.extend_from_slice(b"tail");
        assert_eq!(string_from_utf8_cstring(&buf).as_deref(), Some(*s));
    }
}

#[test]
fn string_is_released_once() {
    let mut s = JsString::from_rf(11);
    assert_eq!(s.rf(), Some(11));
    assert_eq!(s.as_ptr(), 11);
    assert_eq!(s.take_rf(), Some(11));
    assert_eq!(s.rf(), None);
    assert_eq!(s.take_rf(), None);
}

#[test]
fn string_copy_null_reference_is_exception() {
    let exception = JsValue::from_rf(2);
    assert_eq!(JsString::from_rf_or_exception(0, exception).err().unwrap().rf(), 2);
    assert_eq!(JsString::from_rf_or_exception(30, exception).ok().unwrap().rf(), Some(30));
}

#[test]
fn symbol_without_description_gets_null() {
    let desc = JsString::from_rf(2);
    assert_eq!(Symbol::description_ref(None), 0);
    assert_eq!(Symbol::description_ref(Some(&desc)), 2);
}

#[test]
fn lossy_string_copy_of_null_is_released() {
    assert_eq!(JsString::from_nullable_rf(0).rf(), None);
    assert_eq!(JsString::from_nullable_rf(12).rf(), Some(12));
}
