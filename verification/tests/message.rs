use responder::error::MsgHandlingError;
use responder::message::{Message, Metadata, QualityOfService};

fn message(metadata: Metadata) -> Message {
    Message {
        topic: "rust/reverse".to_string(),
        payload: b"{}".to_vec(),
        qos: QualityOfService::AtLeastOnce,
        metadata,
    }
}

#[test]
fn qos_levels_are_zero_one_two() {
    assert_eq!(QualityOfService::AtMostOnce.level(), 0);
    assert_eq!(QualityOfService::AtLeastOnce.level(), 1);
    assert_eq!(QualityOfService::ExactlyOnce.level(), 2);
}

#[test]
fn qos_from_level_knows_three_levels() {
    assert_eq!(QualityOfService::from_level(0), Some(QualityOfService::AtMostOnce));
    assert_eq!(QualityOfService::from_level(1), Some(QualityOfService::AtLeastOnce));
    assert_eq!(QualityOfService::from_level(2), Some(QualityOfService::ExactlyOnce));
    assert_eq!(QualityOfService::from_level(3), None);
    assert_eq!(QualityOfService::from_level(-1), None);
    assert_eq!(QualityOfService::from_level(i32::MAX), None);
}

#[test]
fn qos_level_round_trips() {
    for level in 0..3 {
        assert_eq!(QualityOfService::from_level(level).unwrap().level(), level);
    }
}

#[test]
fn empty_metadata_carries_nothing() {
    let metadata = Metadata::empty();
    assert_eq!(metadata.response_topic, None);
    assert_eq!(metadata.correlation_token, None);
}

#[test]
fn response_topic_is_read_from_the_metadata() {
    let msg = message(Metadata {
        response_topic: Some("replies/42".to_string()),
        correlation_token: None,
    });
    assert_eq!(msg.response_topic(), Ok(&"replies/42".to_string()));
}

#[test]
fn missing_response_topic_is_an_error() {
    let msg = message(Metadata { response_topic: None, correlation_token: Some(vec![1, 2]) });
    assert_eq!(msg.response_topic(), Err(MsgHandlingError::NoResponseTopicError));
}

#[test]
fn correlation_token_is_read_from_the_metadata() {
    let msg = message(Metadata {
        response_topic: None,
        correlation_token: Some(vec![0, 255, 7]),
    });
    assert_eq!(msg.correlation_token(), Some(&vec![0, 255, 7]));
}

#[test]
fn missing_correlation_token_is_no_error() {
    let msg = message(Metadata::empty());
    assert_eq!(msg.correlation_token(), None);
}

#[test]
fn empty_correlation_token_is_still_a_token() {
    let msg = message(Metadata { response_topic: None, correlation_token: Some(vec![]) });
    assert_eq!(msg.correlation_token(), Some(&vec![]));
}
