use minecraft_parser::{parse_string_n, MinecraftParseError};

#[test]
fn string_of_empty_buffer_fails_as_its_prefix_does() {
    let mut buf = &b""[..];
    assert_eq!(parse_string_n(&mut buf), Err(MinecraftParseError::InvalidVarInt));
}

#[test]
fn string_with_unfinished_prefix_fails_as_its_prefix_does() {
    let mut buf = &b"\x80"[..];
    assert_eq!(parse_string_n(&mut buf), Err(MinecraftParseError::InvalidVarInt));
    let mut buf = &b"\x81\x81\x81\x81\x81\x01"[..];
    assert_eq!(parse_string_n(&mut buf), Err(MinecraftParseError::InvalidVarInt));
}

#[test]
fn string_of_length_zero_is_empty() {
    let mut buf = &b"\x00"[..];
    assert_eq!(parse_string_n(&mut buf), Ok(String::new()));
    assert!(buf.is_empty());
    let mut buf = &b"\x00\x41"[..];
    assert_eq!(parse_string_n(&mut buf), Ok(String::new()));
    assert_eq!(buf, &b"\x41"[..]);
}

#[test]
fn string_moves_the_cursor_past_prefix_and_text() {
    let mut buf = &b"\x02hi\x63\xdd"[..];
    assert_eq!(parse_string_n(&mut buf), Ok("hi".to_string()));
    assert_eq!(buf, &b"\x63\xdd"[..]);
}

#[test]
fn string_with_padded_prefix() {
    let mut buf = &b"\x82\x80\x00okay"[..];
    assert_eq!(parse_string_n(&mut buf), Ok("ok".to_string()));
    assert_eq!(buf, &b"ay"[..]);
}

#[test]
fn string_of_several_bytes_per_character() {
    let mut buf = &b"\x09\xc3\xa9\xe2\x82\xac\xf0\x9f\x98\x80"[..];
    assert_eq!(parse_string_n(&mut buf), Ok("\u{e9}\u{20ac}\u{1f600}".to_string()));
    assert!(buf.is_empty());
}

#[test]
fn string_longer_than_127_bytes() {
    let mut data = vec![0xc8, 0x01];
    data.extend(std::iter::repeat(b'a').take(200));
    data.push(b'!');
    let mut buf = &data[..];
    assert_eq!(parse_string_n(&mut buf), Ok("a".repeat(200)));
    assert_eq!(buf, &b"!"[..]);
}

#[test]
fn string_one_byte_short_stays_behind_the_prefix() {
    let mut buf = &b"\x03\x31\x36"[..];
    let err = parse_string_n(&mut buf).unwrap_err();
    assert_eq!(err, MinecraftParseError::StringTooShort);
    assert_eq!(buf, &b"\x31\x36"[..]);
}

#[test]
fn string_with_nothing_behind_the_prefix_is_too_short() {
    let mut buf = &b"\x01"[..];
    assert_eq!(parse_string_n(&mut buf), Err(MinecraftParseError::StringTooShort));
    assert!(buf.is_empty());
}

#[test]
fn string_of_huge_declared_length_is_too_short() {
    let mut buf = &b"\xff\xff\xff\xff\x07abc"[..];
    assert_eq!(parse_string_n(&mut buf), Err(MinecraftParseError::StringTooShort));
    assert_eq!(buf, &b"abc"[..]);
}

#[test]
fn string_of_negative_declared_length_is_too_short() {
    let mut buf = &b"\xff\xff\xff\xff\x0fabc"[..];
    assert_eq!(parse_string_n(&mut buf), Err(MinecraftParseError::StringTooShort));
    assert_eq!(buf, &b"abc"[..]);
    let mut buf = &b"\x80\x80\x80\x80\x08"[..];
    assert_eq!(parse_string_n(&mut buf), Err(MinecraftParseError::StringTooShort));
}

#[test]
fn string_that_is_not_utf8_carries_the_validator_detail() {
    let mut buf = &b"\x04ab\xff\x63\x64"[..];
    match parse_string_n(&mut buf) {
        Err(MinecraftParseError::InvalidStringEncoding(detail)) => {
            assert_eq!(detail.valid_up_to(), 2);
            assert_eq!(detail, std::str::from_utf8(b"ab\xff\x63").unwrap_err());
        }
        other => panic!("unexpected outcome: {:?}", other),
    }
    assert_eq!(buf, &b"\x64"[..]);
}

#[test]
fn string_rejects_overlong_surrogate_and_cut_sequences() {
    let inputs: [&[u8]; 4] = [
        b"\x02\xc0\x80",
        b"\x03\xed\xa0\x80",
        b"\x02\xe2\x82\xac",
        b"\x04\xf4\x90\x80\x80",
    ];
    for input in inputs {
        let mut buf = input;
        let err = parse_string_n(&mut buf).unwrap_err();
        assert!(matches!(err, MinecraftParseError::InvalidStringEncoding(_)));
    }
}

#[test]
fn string_same_bytes_same_outcome() {
    let inputs: [&[u8]; 5] = [
        b"",
        b"\x03\x31\x36",
        b"\x02hi!",
        b"\x02\xc0\x80",
        b"\xff\xff\xff\xff\x0f",
    ];
    for input in inputs {
        let mut first = input;
        let mut second = input;
        assert_eq!(parse_string_n(&mut first), parse_string_n(&mut second));
        assert_eq!(first, second);
    }
}
