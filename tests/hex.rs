use fuel_core_inspector::error::InspectorError;
use fuel_core_inspector::hex::hex_string_to_bytes;

fn encode(bytes: &[u8]) -> String {
    bytes.iter().map(|b| format!("{:02x}", b)).collect()
}

#[test]
fn decodes_with_and_without_marker() {
    assert_eq!(hex_string_to_bytes("0x0102").unwrap(), vec![1u8, 2]);
    assert_eq!(hex_string_to_bytes("0102").unwrap(), vec![1u8, 2]);
    assert_eq!(hex_string_to_bytes("0xdeadbeef").unwrap(), vec![0xdeu8, 0xad, 0xbe, 0xef]);
    assert_eq!(hex_string_to_bytes("DEADbeef").unwrap(), vec![0xdeu8, 0xad, 0xbe, 0xef]);
}

#[test]
fn empty_input_decodes_to_no_bytes() {
    assert_eq!(hex_string_to_bytes("").unwrap(), Vec::<u8>::new());
    assert_eq!(hex_string_to_bytes("0x").unwrap(), Vec::<u8>::new());
}

#[test]
fn odd_length_is_malformed_at_the_end() {
    assert!(matches!(
        hex_string_to_bytes("0x123"),
        Err(InspectorError::MalformedHex { position: 5 })
    ));
    assert!(matches!(hex_string_to_bytes("a"), Err(InspectorError::MalformedHex { position: 1 })));
    assert!(matches!(hex_string_to_bytes("0x0g1"), Err(InspectorError::MalformedHex { position: 5 })));
}

#[test]
fn non_hex_character_is_malformed_at_its_position() {
    assert!(matches!(hex_string_to_bytes("0x0g"), Err(InspectorError::MalformedHex { position: 3 })));
    assert!(matches!(hex_string_to_bytes("zz"), Err(InspectorError::MalformedHex { position: 0 })));
    assert!(matches!(hex_string_to_bytes("+f"), Err(InspectorError::MalformedHex { position: 0 })));
    assert!(matches!(hex_string_to_bytes("0X12"), Err(InspectorError::MalformedHex { position: 1 })));
    assert!(matches!(hex_string_to_bytes("00é1"), Err(InspectorError::MalformedHex { position: 2 })));
}

#[test]
fn encode_then_decode_round_trip() {
    let bytes: Vec<u8> = (0u8..=255).collect();
    let text = encode(&bytes);
    assert_eq!(hex_string_to_bytes(&text).unwrap(), bytes);
    assert_eq!(hex_string_to_bytes(&format!("0x{}", text)).unwrap(), bytes);
}

#[test]
fn decode_then_encode_round_trip() {
    let text = "00ff7f80a5c3";
    assert_eq!(encode(&hex_string_to_bytes(text).unwrap()), text);
    assert_eq!(encode(&hex_string_to_bytes("0x00ff7f80a5c3").unwrap()), text);
}
