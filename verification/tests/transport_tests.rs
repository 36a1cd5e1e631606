use up_transport_iceoryx2_rust::status::StatusCode;
use up_transport_iceoryx2_rust::transport::{MessagingPattern, TransportKind, UTransportIceoryx2};

#[test]
fn build_publish_subscribe() {
    let kind = UTransportIceoryx2::build(MessagingPattern::PublishSubscribe).unwrap();
    assert_eq!(kind, TransportKind::PublishSubscribe);
}

#[test]
fn build_event_is_unimplemented() {
    let status = UTransportIceoryx2::build(MessagingPattern::Event).unwrap_err();
    assert_eq!(status.code, StatusCode::Unimplemented);
    assert_eq!(status.message, "Unimplemented messaging pattern");
}

#[test]
fn build_request_response_is_unimplemented() {
    let status = UTransportIceoryx2::build(MessagingPattern::RequestResponse).unwrap_err();
    assert_eq!(status.code, StatusCode::Unimplemented);
    assert_eq!(status.message, "Unimplemented messaging pattern");
}

#[test]
fn build_blackboard_is_unimplemented() {
    let status = UTransportIceoryx2::build(MessagingPattern::Blackboard).unwrap_err();
    assert_eq!(status.code, StatusCode::Unimplemented);
}
