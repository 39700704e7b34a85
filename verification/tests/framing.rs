use lan_chat::networking::framing::decode;
use lan_chat::networking::framing::encode;
use lan_chat::networking::framing::UnknownKind;
use lan_chat::networking::MessageType;

const KINDS: [MessageType; 4] =
    [MessageType::Text, MessageType::NameChange, MessageType::Encryption, MessageType::Error];

#[test]
fn tag_bytes_are_zero_to_three() {
    assert_eq!(MessageType::Text.to_u8(), 0);
    assert_eq!(MessageType::NameChange.to_u8(), 1);
    assert_eq!(MessageType::Encryption.to_u8(), 2);
    assert_eq!(MessageType::Error.to_u8(), 3);
}

#[test]
fn from_u8_knows_the_four_kinds() {
    assert_eq!(MessageType::from_u8(0), Some(MessageType::Text));
    assert_eq!(MessageType::from_u8(1), Some(MessageType::NameChange));
    assert_eq!(MessageType::from_u8(2), Some(MessageType::Encryption));
    assert_eq!(MessageType::from_u8(3), Some(MessageType::Error));
}

#[test]
fn from_u8_refuses_every_other_byte() {
    for byte in 4..=255u8 {
        assert_eq!(MessageType::from_u8(byte), None);
    }
}

#[test]
fn from_u8_inverts_to_u8() {
    for kind in KINDS {
        assert_eq!(MessageType::from_u8(kind.to_u8()), Some(kind));
    }
}

#[test]
fn encode_puts_the_tag_before_the_text() {
    assert_eq!(encode(MessageType::Text, "hello"), vec![0, b'h', b'e', b'l', b'l', b'o']);
    assert_eq!(encode(MessageType::NameChange, "Alice"), vec![1, b'A', b'l', b'i', b'c', b'e']);
    assert_eq!(encode(MessageType::Error, "x"), vec![3, b'x']);
}

#[test]
fn encode_of_empty_text_is_the_tag_alone() {
    for kind in KINDS {
        assert_eq!(encode(kind, ""), vec![kind.to_u8()]);
    }
}

#[test]
fn encode_writes_text_as_utf8() {
    assert_eq!(encode(MessageType::Text, "é"), vec![0, 0xC3, 0xA9]);
    assert_eq!(encode(MessageType::Text, "€"), vec![0, 0xE2, 0x82, 0xAC]);
    assert_eq!(encode(MessageType::Text, "😀"), vec![0, 0xF0, 0x9F, 0x98, 0x80]);
}

#[test]
fn decode_splits_tag_and_text() {
    assert_eq!(decode(&[0, b'h', b'i']), Ok((MessageType::Text, "hi".to_string())));
    assert_eq!(decode(&[1, b'B', b'o', b'b']), Ok((MessageType::NameChange, "Bob".to_string())));
    assert_eq!(decode(&[2]), Ok((MessageType::Encryption, String::new())));
    assert_eq!(decode(&[3, b'!']), Ok((MessageType::Error, "!".to_string())));
}

#[test]
fn decode_inverts_encode() {
    let texts = ["", "hello", "two words", "naïve café", "日本語", "a😀b", "\u{FFFD}", "\0"];
    for kind in KINDS {
        for text in texts {
            assert_eq!(decode(&encode(kind, text)), Ok((kind, text.to_string())));
        }
    }
}

#[test]
fn decode_refuses_every_unknown_tag() {
    for byte in 4..=255u8 {
        assert_eq!(decode(&[byte]), Err(UnknownKind { byte }));
        assert_eq!(decode(&[byte, b'h', b'i']), Err(UnknownKind { byte }));
    }
}

#[test]
fn decode_replaces_invalid_utf8() {
    assert_eq!(decode(&[0, 0xFF]), Ok((MessageType::Text, "\u{FFFD}".to_string())));
    assert_eq!(decode(&[0, b'a', 0xC3, b'b']), Ok((MessageType::Text, "a\u{FFFD}b".to_string())));
    assert_eq!(decode(&[3, 0xE2, 0x82]), Ok((MessageType::Error, "\u{FFFD}".to_string())));
}

#[test]
fn decode_never_fails_on_any_payload_byte() {
    for byte in 0..=255u8 {
        let text = if byte < 0x80 { (byte as char).to_string() } else { "\u{FFFD}".to_string() };
        assert_eq!(decode(&[0, byte]), Ok((MessageType::Text, text)));
    }
}
