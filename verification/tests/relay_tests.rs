use protobuf::Message;
use up_rust::{UMessage, UMessageBuilder, UPayloadFormat, UUri};
use up_transport_iceoryx2_rust::keyed::KeyedList;
use up_transport_iceoryx2_rust::relay::{relay_step, ReceiveOutcome, RelayRound, RelayStep};
use up_transport_iceoryx2_rust::sample::encode_sample;
use up_transport_iceoryx2_rust::status::StatusCode;

#[test]
fn no_sample_is_skipped() {
    let set: KeyedList<u64, &str> = KeyedList::new();
    assert!(matches!(relay_step(Some(&set), ReceiveOutcome::NoSample), RelayStep::Skip));
}

#[test]
fn receive_failure_aborts() {
    match relay_step::<&str>(None, ReceiveOutcome::Failed("broken".to_string())) {
        RelayStep::Abort(status) => {
            assert_eq!(status.code, StatusCode::Internal);
            assert_eq!(status.message, "Failed to receive sample: broken");
        }
        _ => panic!("expected Abort"),
    }
}

#[test]
fn undecodable_sample_aborts() {
    match relay_step::<&str>(None, ReceiveOutcome::Sample(vec![0xff, 0xff])) {
        RelayStep::Abort(status) => {
            assert_eq!(status.code, StatusCode::Internal);
            let detail = UMessage::parse_from_bytes(&[0xff, 0xff]).unwrap_err().to_string();
            assert_eq!(status.message, format!("Failed to deserialize UMessage: {}", detail));
        }
        _ => panic!("expected Abort"),
    }
}

#[test]
fn sample_is_delivered_to_the_registered_listeners() {
    let topic = UUri::try_from("//my-vehicle/4210/1/B24D").unwrap();
    let message = UMessageBuilder::publish(topic)
        .build_with_payload("hi", UPayloadFormat::UPAYLOAD_FORMAT_TEXT)
        .unwrap();
    let bytes = message.write_to_bytes().unwrap();
    let mut set: KeyedList<u64, &str> = KeyedList::new();
    set.insert(7, "seven");
    set.insert(8, "eight");
    match relay_step(Some(&set), ReceiveOutcome::Sample(bytes)) {
        RelayStep::Deliver { message: m, listeners } => {
            assert_eq!(m, message);
            let l = listeners.unwrap();
            assert_eq!(l.len(), 2);
            assert_eq!(l.entry_at(0), (&7, &"seven"));
            assert_eq!(l.entry_at(1), (&8, &"eight"));
        }
        _ => panic!("expected Deliver"),
    }
}

#[test]
fn sent_sample_is_relayed_unchanged() {
    let topic = UUri::try_from("//my-vehicle/4210/1/B24D").unwrap();
    let message = UMessageBuilder::publish(topic)
        .build_with_payload("sent", UPayloadFormat::UPAYLOAD_FORMAT_TEXT)
        .unwrap();
    let sample = encode_sample(&message).ok().unwrap();
    let set: KeyedList<u64, &str> = KeyedList::new();
    match relay_step(Some(&set), ReceiveOutcome::Sample(sample.payload.clone())) {
        RelayStep::Deliver { message: m, .. } => assert_eq!(m, message),
        _ => panic!("expected Deliver"),
    }
}

#[test]
fn relay_round_polls_each_subscriber_once() {
    let mut round = RelayRound::new(2);
    assert_eq!(round.next_subscriber(), Some(0));
    assert!(matches!(round.step::<&str>(None, ReceiveOutcome::NoSample), RelayStep::Skip));
    assert_eq!(round.next_subscriber(), Some(1));
    assert!(matches!(round.step::<&str>(None, ReceiveOutcome::NoSample), RelayStep::Skip));
    assert_eq!(round.next_subscriber(), None);
}

#[test]
fn relay_round_stops_at_first_failure() {
    let mut round = RelayRound::new(3);
    assert_eq!(round.next_subscriber(), Some(0));
    assert!(matches!(
        round.step::<&str>(None, ReceiveOutcome::Failed("gone".to_string())),
        RelayStep::Abort(_)
    ));
    assert_eq!(round.next_subscriber(), None);
}

#[test]
fn empty_relay_round_polls_nothing() {
    let round = RelayRound::new(0);
    assert_eq!(round.next_subscriber(), None);
}
