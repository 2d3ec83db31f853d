use header_field::{HeaderFieldName, InvalidHeaderFieldName};

#[test]
fn name_from_valid_chars_unchecked_as_bytes() {
    let actual = HeaderFieldName::from_static("test");
    assert_eq!("test".as_bytes(), actual.as_bytes());
}

#[test]
fn name_from_invalid_chars_unchecked_as_bytes() {
    let actual = HeaderFieldName::from_static("2±1+1");
    assert_eq!("2\x00\x001\x001".as_bytes(), actual.as_bytes());
}

#[test]
fn name_from_invalid_chars_unchecked_as_utf8_str() {
    let actual = HeaderFieldName::from_static("2±1+1");
    assert_eq!("2\x00\x001\x001", actual.as_utf8_str());
}

#[test]
fn name_from_invalid_chars_unchecked_as_utf8_str_clean() {
    let actual = HeaderFieldName::from_static("2±1+1").clean();
    assert_eq!("211", actual.as_utf8_str());
}

#[test]
fn name_from_bytes_accepts_the_whole_alphabet() {
    let input = b"ABCDEFGHIJKLMNOPQRSTUVWXYZabcdefghijklmnopqrstuvwxyz0123456789-_";
    match HeaderFieldName::from_bytes(input) {
        Ok(name) => {
            assert_eq!(&input[..], name.as_bytes());
            assert_eq!(input.len(), name.as_bytes().len());
        }
        Err(InvalidHeaderFieldName) => panic!("the name alphabet was rejected"),
    }
}

#[test]
fn name_from_bytes_valid_string() {
    match HeaderFieldName::from_bytes(b"test") {
        Ok(name) => assert_eq!(b"test", name.as_bytes()),
        Err(InvalidHeaderFieldName) => panic!("a valid name was rejected"),
    }
}

#[test]
fn name_from_bytes_accepts_exactly_the_alphabet() {
    for b in 0u8..=255 {
        let accepted = b.is_ascii_alphanumeric() || b == b'-' || b == b'_';
        let r = HeaderFieldName::from_bytes(&[b'a', b, b'z']);
        assert_eq!(accepted, r.is_ok(), "byte {}", b);
        if let Ok(name) = r {
            assert_eq!(&[b'a', b, b'z'][..], name.as_bytes());
        }
    }
}

#[test]
fn name_from_bytes_rejects_one_bad_byte_anywhere() {
    assert!(matches!(HeaderFieldName::from_bytes(b" abc"), Err(InvalidHeaderFieldName)));
    assert!(matches!(HeaderFieldName::from_bytes(b"ab c"), Err(InvalidHeaderFieldName)));
    assert!(matches!(HeaderFieldName::from_bytes(b"abc:"), Err(InvalidHeaderFieldName)));
    assert!(matches!(HeaderFieldName::from_bytes(b"\0"), Err(InvalidHeaderFieldName)));
    assert!(matches!(HeaderFieldName::from_bytes(&[0xc2, 0xb1]), Err(InvalidHeaderFieldName)));
}

#[test]
fn name_from_empty_bytes() {
    match HeaderFieldName::from_bytes(b"") {
        Ok(name) => {
            assert_eq!(0, name.as_bytes().len());
            assert_eq!("", name.as_utf8_str());
        }
        Err(InvalidHeaderFieldName) => panic!("the empty name was rejected"),
    }
    assert_eq!(0, HeaderFieldName::from_bytes_unchecked(b"").as_bytes().len());
    assert_eq!(0, HeaderFieldName::from_static("").clean().into_inner().len());
}

#[test]
fn name_from_bytes_unchecked_maps_every_byte() {
    let input: Vec<u8> = (0u8..=255).collect();
    let name = HeaderFieldName::from_bytes_unchecked(&input);
    let out = name.as_bytes();
    assert_eq!(256, out.len());
    for b in 0u8..=255 {
        let accepted = b.is_ascii_alphanumeric() || b == b'-' || b == b'_';
        let expected = if accepted { b } else { 0 };
        assert_eq!(expected, out[b as usize], "byte {}", b);
    }
}

#[test]
fn name_from_bytes_unchecked_keeps_length_and_order() {
    let name = HeaderFieldName::from_bytes_unchecked(b"X-Custom Header: 1");
    assert_eq!(b"X-Custom\0Header\0\x001", name.as_bytes());
}

#[test]
fn name_parse_is_from_bytes() {
    let parsed: Result<HeaderFieldName, InvalidHeaderFieldName> = "Content-Type".parse();
    match parsed {
        Ok(name) => assert_eq!(b"Content-Type", name.as_bytes()),
        Err(InvalidHeaderFieldName) => panic!("a valid name was rejected"),
    }
    let parsed: Result<HeaderFieldName, InvalidHeaderFieldName> = "Content Type".parse();
    assert!(parsed.is_err());
    let parsed: Result<HeaderFieldName, InvalidHeaderFieldName> = "2±1+1".parse();
    assert!(parsed.is_err());
    let parsed: Result<HeaderFieldName, InvalidHeaderFieldName> = "".parse();
    assert!(parsed.is_ok());
}

#[test]
fn name_try_from_is_from_bytes() {
    match HeaderFieldName::try_from(&b"Accept_Encoding-2"[..]) {
        Ok(name) => assert_eq!(b"Accept_Encoding-2", name.as_bytes()),
        Err(InvalidHeaderFieldName) => panic!("a valid name was rejected"),
    }
    assert!(HeaderFieldName::try_from(&b"Accept/Encoding"[..]).is_err());
}

#[test]
fn name_clean_removes_nulls_in_order() {
    let name = HeaderFieldName::from_bytes_unchecked(b" a b  c ");
    assert_eq!(b"\0a\0b\0\0c\0", name.as_bytes());
    assert_eq!(b"abc", name.clean().as_bytes());
}

#[test]
fn name_clean_is_idempotent() {
    let once = HeaderFieldName::from_static("2±1+1").clean().into_inner();
    let twice = HeaderFieldName::from_bytes_unchecked(&once).clean().clean().into_inner();
    assert_eq!(b"211".to_vec(), once);
    assert_eq!(once, twice);
}

#[test]
fn name_clean_never_grows_and_leaves_no_null() {
    let input: Vec<u8> = (0u8..=255).collect();
    let name = HeaderFieldName::from_bytes_unchecked(&input);
    let before = name.as_bytes().len();
    let cleaned = name.clean().into_inner();
    assert!(cleaned.len() <= before);
    assert_eq!(64, cleaned.len());
    assert!(cleaned.iter().all(|b| *b != 0));
    assert!(HeaderFieldName::from_bytes(&cleaned).is_ok());
}

#[test]
fn name_clean_of_only_rejected_bytes_is_empty() {
    let name = HeaderFieldName::from_bytes_unchecked(b" :/ ");
    assert_eq!(4, name.as_bytes().len());
    assert_eq!(0, name.clean().as_bytes().len());
}

#[test]
fn name_clean_of_valid_name_changes_nothing() {
    match HeaderFieldName::from_bytes(b"Host") {
        Ok(name) => assert_eq!(b"Host", name.clean().as_bytes()),
        Err(InvalidHeaderFieldName) => panic!("a valid name was rejected"),
    }
}

#[test]
fn name_into_inner_gives_the_bytes() {
    let name = HeaderFieldName::from_static("x y");
    assert_eq!(vec![b'x', 0, b'y'], name.into_inner());
}

#[test]
fn name_as_utf8_str_spells_the_bytes() {
    let name = HeaderFieldName::from_static("Content-Length");
    assert_eq!("Content-Length", name.as_utf8_str());
    assert_eq!(name.as_bytes(), name.as_utf8_str().as_bytes());
}
