use protobuf::Message;
use up_rust::{UMessage, UMessageBuilder, UPayloadFormat, UUri};
use up_transport_iceoryx2_rust::uprotocolheader::{
    set_samples_user_header, UProtocolHeader, MAX_FEASIBLE_UATTRIBUTES_SERIALIZED_LENGTH,
    UPROTOCOL_MAJOR_VERSION,
};
use up_transport_iceoryx2_rust::sample::encode_sample;
use up_transport_iceoryx2_rust::CustomHeader;

fn sample_message() -> UMessage {
    let topic = UUri::try_from("//my-vehicle/4210/1/B24D").expect("valid topic");
    UMessageBuilder::publish(topic)
        .build_with_payload("locked", UPayloadFormat::UPAYLOAD_FORMAT_TEXT)
        .expect("valid message")
}

#[test]
fn test_custom_header_from_user_header() {
    let header = CustomHeader { version: 2, timestamp: 1000 };
    let new_header = CustomHeader::from_user_header(&header).unwrap();
    assert_eq!(new_header.version, 2);
    assert_eq!(new_header.timestamp, 1000);
}

#[test]
fn new_header_is_empty() {
    let header = UProtocolHeader::new();
    assert_eq!(header.uprotocol_major_version, 0);
    assert!(header.attributes().is_empty());
}

#[test]
fn store_attributes_keeps_short_input() {
    let mut header = UProtocolHeader::new();
    header.uprotocol_major_version = 7;
    header.store_attributes(&[1, 2, 3, 4]);
    assert_eq!(header.attributes(), &[1, 2, 3, 4]);
    assert_eq!(header.uprotocol_major_version, 7);
}

#[test]
fn store_attributes_replaces_previous_attributes() {
    let mut header = UProtocolHeader::new();
    header.store_attributes(&[9, 9, 9, 9, 9]);
    header.store_attributes(&[5, 6]);
    assert_eq!(header.attributes(), &[5, 6]);
}

#[test]
fn store_attributes_cuts_at_capacity() {
    let bytes: Vec<u8> = (0..1500u32).map(|i| (i % 251) as u8).collect();
    let mut header = UProtocolHeader::new();
    header.store_attributes(&bytes);
    assert_eq!(header.attributes().len(), MAX_FEASIBLE_UATTRIBUTES_SERIALIZED_LENGTH);
    assert_eq!(header.attributes(), &bytes[..1000]);
}

#[test]
fn store_attributes_exactly_at_capacity() {
    let bytes = vec![42u8; 1000];
    let mut header = UProtocolHeader::new();
    header.store_attributes(&bytes);
    assert_eq!(header.attributes(), bytes.as_slice());
}

#[test]
fn set_samples_user_header_writes_version_and_attributes() {
    let message = sample_message();
    let expected = message.attributes.write_to_bytes().expect("attributes serialize");
    assert!(!expected.is_empty());
    let mut header = UProtocolHeader::new();
    set_samples_user_header(&mut header, &message).expect("header is set");
    assert_eq!(header.uprotocol_major_version, UPROTOCOL_MAJOR_VERSION);
    assert_eq!(header.uprotocol_major_version, 1);
    assert_eq!(header.attributes(), expected.as_slice());
}

#[test]
fn encode_sample_gives_payload_and_header() {
    let message = sample_message();
    let payload = message.write_to_bytes().unwrap();
    let attributes = message.attributes.write_to_bytes().unwrap();
    let encoded = encode_sample(&message).ok().unwrap();
    assert_eq!(encoded.payload, payload);
    assert_eq!(encoded.header.uprotocol_major_version, 1);
    assert_eq!(encoded.header.attributes(), attributes.as_slice());
}

#[test]
fn default_header_is_new_header() {
    let header = UProtocolHeader::default();
    assert_eq!(header.uprotocol_major_version, 0);
    assert!(header.attributes().is_empty());
}
