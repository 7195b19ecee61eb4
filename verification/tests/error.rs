use responder::error::MsgHandlingError;

#[test]
fn missing_response_topic_describes_itself() {
    assert_eq!(
        MsgHandlingError::NoResponseTopicError.message(),
        "No response topic was provided"
    );
}

#[test]
fn missing_handler_describes_itself() {
    assert_eq!(
        MsgHandlingError::NoHandlerForTopicError.message(),
        "No handler was registered for this topic"
    );
}

#[test]
fn codec_and_publish_errors_describe_themselves() {
    assert_eq!(
        MsgHandlingError::DeserializationError.message(),
        "The request payload could not be decoded"
    );
    assert_eq!(
        MsgHandlingError::SerializationError.message(),
        "The response could not be encoded"
    );
    assert_eq!(MsgHandlingError::PublishError.message(), "The reply could not be published");
}

#[test]
fn every_error_has_its_own_description() {
    let errors = [
        MsgHandlingError::NoResponseTopicError,
        MsgHandlingError::NoHandlerForTopicError,
        MsgHandlingError::DeserializationError,
        MsgHandlingError::SerializationError,
        MsgHandlingError::PublishError,
    ];
    for (i, first) in errors.iter().enumerate() {
        for second in errors.iter().skip(i + 1) {
            assert_ne!(first.message(), second.message());
        }
    }
}
