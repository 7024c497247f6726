use paap_configurator::protocol::{
    encode_char, encode_set_key, extract_reply, has_prefix, hello_command, join3, key_query,
    parse_key, parse_version, reply_text, same_bytes, trim_carriage_returns, version_query,
    find_line_end,
};

#[test]
fn commands_are_lines_of_ascii() {
    assert_eq!(hello_command(), b"HEL\n".to_vec());
    assert_eq!(version_query(), b"VER\n".to_vec());
    assert_eq!(key_query(), b"KEY\n".to_vec());
}

#[test]
fn set_key_command_carries_the_key() {
    assert_eq!(encode_set_key('k'), b"KEYk\n".to_vec());
    assert_eq!(encode_set_key('a'), b"KEYa\n".to_vec());
}

#[test]
fn characters_encode_as_utf8() {
    for c in ['l', '\u{0}', '\u{7f}', '\u{80}', 'é', '\u{7ff}', '\u{800}', '€', '\u{ffff}', '\u{10000}', '😀', '\u{10ffff}'] {
        let mut expected = [0u8; 4];
        let expected = c.encode_utf8(&mut expected).as_bytes().to_vec();
        assert_eq!(encode_char(c), expected, "{:?}", c);
    }
}

#[test]
fn line_end_is_the_first_line_feed() {
    assert_eq!(find_line_end(b"LO\nKEY\n"), Some(2));
    assert_eq!(find_line_end(b"\n"), Some(0));
    assert_eq!(find_line_end(b"LO"), None);
    assert_eq!(find_line_end(b""), None);
}

#[test]
fn carriage_returns_are_trimmed_only_at_the_end() {
    assert_eq!(trim_carriage_returns(b"LO\r"), b"LO".to_vec());
    assert_eq!(trim_carriage_returns(b"LO\r\r\r"), b"LO".to_vec());
    assert_eq!(trim_carriage_returns(b"\rLO"), b"\rLO".to_vec());
    assert_eq!(trim_carriage_returns(b"\r\r"), Vec::<u8>::new());
}

#[test]
fn reply_is_the_first_complete_line() {
    assert_eq!(extract_reply(b"LO\r\n"), Some(b"LO".to_vec()));
    assert_eq!(extract_reply(b"VER0.0.1\nKEYl\n"), Some(b"VER0.0.1".to_vec()));
    assert_eq!(extract_reply(b"\n"), Some(Vec::new()));
    assert_eq!(extract_reply(b"VER0.0"), None);
}

#[test]
fn prefixes_and_equality() {
    assert!(has_prefix(b"VER0.0.1", b"VER"));
    assert!(has_prefix(b"VER", b"VER"));
    assert!(!has_prefix(b"VE", b"VER"));
    assert!(!has_prefix(b"KEYl", b"VER"));
    assert!(same_bytes(b"ACK", b"ACK"));
    assert!(!same_bytes(b"ACK", b"ACKS"));
    assert!(!same_bytes(b"NAK", b"ACK"));
}

#[test]
fn version_is_what_follows_ver() {
    assert_eq!(parse_version(b"VER0.0.1"), "0.0.1");
    assert_eq!(parse_version(b"VER"), "unknown");
    assert_eq!(parse_version(b"VER1.2"), "1.2");
}

#[test]
fn key_is_the_character_after_key() {
    assert_eq!(parse_key(b"KEYl"), Some('l'));
    assert_eq!(parse_key(b"KEYkx"), Some('k'));
    assert_eq!(parse_key("KEYé".as_bytes()), Some('é'));
    assert_eq!(parse_key(b"KEY"), None);
    assert_eq!(parse_key(b"KEY\0"), None);
}

#[test]
fn invalid_bytes_are_replaced_when_shown() {
    assert_eq!(reply_text(&[0x4E, 0xFF, 0x4B]), "N\u{FFFD}K");
    assert_eq!(reply_text(b"NAK"), "NAK");
    assert_eq!(parse_key(&[0x4B, 0x45, 0x59, 0xFF]), Some('\u{FFFD}'));
}

#[test]
fn texts_join() {
    assert_eq!(join3("Read error: ", "broken pipe", "."), "Read error: broken pipe.");
}
