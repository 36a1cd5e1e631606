use protobuf::Message;
use up_rust::{UMessage, UMessageBuilder, UPayloadFormat, UUri};
use up_transport_iceoryx2_rust::umessage::{UMessageZeroCopy, ZeroCopyError, MAX_UMESSAGE_SIZE};

fn message_with_payload(payload: Vec<u8>) -> UMessage {
    let topic = UUri::try_from("//my-vehicle/4210/1/B24D").expect("valid topic");
    UMessageBuilder::publish(topic)
        .build_with_payload(payload, UPayloadFormat::UPAYLOAD_FORMAT_RAW)
        .expect("valid message")
}

#[test]
fn from_serialized_holds_the_bytes() {
    let z = UMessageZeroCopy::from_serialized(&[1, 2, 3]).ok().unwrap();
    assert_eq!(z.as_bytes(), &[1, 2, 3]);
    assert_eq!(z.len(), 3);
    assert!(!z.is_empty());
}

#[test]
fn from_serialized_empty() {
    let z = UMessageZeroCopy::from_serialized(&[]).ok().unwrap();
    assert_eq!(z.len(), 0);
    assert!(z.is_empty());
    assert!(z.as_bytes().is_empty());
}

#[test]
fn from_serialized_at_capacity() {
    let bytes = vec![7u8; MAX_UMESSAGE_SIZE];
    let z = UMessageZeroCopy::from_serialized(&bytes).ok().unwrap();
    assert_eq!(z.len(), 4096);
    assert_eq!(z.as_bytes(), bytes.as_slice());
}

#[test]
fn from_serialized_too_large() {
    let bytes = vec![7u8; MAX_UMESSAGE_SIZE + 1];
    match UMessageZeroCopy::from_serialized(&bytes) {
        Err(ZeroCopyError::TooLarge { size }) => assert_eq!(size, 4097),
        _ => panic!("expected TooLarge"),
    }
}

#[test]
fn new_holds_the_encoding() {
    let message = message_with_payload(b"hello".to_vec());
    let expected = message.write_to_bytes().unwrap();
    let z = UMessageZeroCopy::new(message).ok().unwrap();
    assert_eq!(z.as_bytes(), expected.as_slice());
    assert_eq!(z.len(), expected.len());
}

#[test]
fn new_then_to_umessage_gives_the_message_back() {
    let message = message_with_payload(b"round trip".to_vec());
    let z = UMessageZeroCopy::new(message.clone()).ok().unwrap();
    let back = z.to_umessage().ok().unwrap();
    assert_eq!(back, message);
}

#[test]
fn new_refuses_a_message_too_large() {
    let message = message_with_payload(vec![1u8; 5000]);
    let size = message.write_to_bytes().unwrap().len();
    match UMessageZeroCopy::new(message) {
        Err(ZeroCopyError::TooLarge { size: s }) => assert_eq!(s, size),
        _ => panic!("expected TooLarge"),
    }
}

#[test]
fn to_umessage_refuses_garbage() {
    let z = UMessageZeroCopy::from_serialized(&[0xff, 0xff, 0xff]).ok().unwrap();
    assert!(matches!(z.to_umessage(), Err(ZeroCopyError::Deserialize(_))));
}

#[test]
fn empty_buffer_decodes_to_default_message() {
    let z = UMessageZeroCopy::from_serialized(&[]).ok().unwrap();
    let back = z.to_umessage().ok().unwrap();
    assert_eq!(back, UMessage::new());
}

#[test]
fn to_umessage_error_carries_the_decoder_error() {
    let bytes = [0xffu8, 0xff, 0xff];
    let z = UMessageZeroCopy::from_serialized(&bytes).ok().unwrap();
    let expected = UMessage::parse_from_bytes(&bytes).unwrap_err().to_string();
    match z.to_umessage() {
        Err(ZeroCopyError::Deserialize(e)) => assert_eq!(e.to_string(), expected),
        _ => panic!("expected Deserialize"),
    }
}

#[test]
fn holds_tells_the_stored_message() {
    let message = message_with_payload(b"kept".to_vec());
    let other = message_with_payload(b"other".to_vec());
    let z = UMessageZeroCopy::new(message.clone()).ok().unwrap();
    assert!(z.holds(&message));
    assert!(!z.holds(&other));
    let garbage = UMessageZeroCopy::from_serialized(&[0xff, 0xff, 0xff]).ok().unwrap();
    assert!(!garbage.holds(&message));
}

#[test]
fn too_large_error_text() {
    let error = ZeroCopyError::TooLarge { size: 4097 };
    assert_eq!(error.text(), "UMessage too large: 4097 bytes (max: 4096)");
}

#[test]
fn too_large_error_text_from_new() {
    let message = message_with_payload(vec![1u8; 5000]);
    let size = message.write_to_bytes().unwrap().len();
    let error = UMessageZeroCopy::new(message).err().unwrap();
    assert_eq!(error.text(), format!("UMessage too large: {} bytes (max: 4096)", size));
}

#[test]
fn deserialize_error_text() {
    let bytes = [0xffu8, 0xff, 0xff];
    let z = UMessageZeroCopy::from_serialized(&bytes).ok().unwrap();
    let detail = UMessage::parse_from_bytes(&bytes).unwrap_err().to_string();
    let error = z.to_umessage().err().unwrap();
    assert_eq!(error.text(), format!("Failed to deserialize UMessage: {}", detail));
}

#[test]
fn serialize_error_text() {
    let e = UMessage::parse_from_bytes(&[0xff, 0xff, 0xff]).unwrap_err();
    let detail = e.to_string();
    let error = ZeroCopyError::Serialize(e);
    assert_eq!(error.text(), format!("Failed to serialize UMessage: {}", detail));
}
