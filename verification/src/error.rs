use vstd::prelude::*;
use vstd::string::StringExecFns;

verus! {

/// Why a single inbound message could not be answered.
///
/// None of these ends the dispatch loop: each is reported together with
/// the topic of the message that caused it, and the loop polls again.
#[derive(Debug, Clone, Copy, PartialEq, Eq, Structural)]
pub enum MsgHandlingError {
    /// The request names no response topic, so no reply can be addressed.
    NoResponseTopicError,
    /// The message arrived on a topic that no handler is registered for.
    NoHandlerForTopicError,
    /// The request payload could not be decoded.
    DeserializationError,
    /// The response could not be encoded.
    SerializationError,
    /// The transport rejected the reply.
    PublishError,
}

impl MsgHandlingError {
    /// The text that `message` returns for each error.
    pub open spec fn message_spec(self) -> Seq<char> {
        match self {
            MsgHandlingError::NoResponseTopicError => "No response topic was provided"@,
            MsgHandlingError::NoHandlerForTopicError => "No handler was registered for this topic"@,
            MsgHandlingError::DeserializationError => "The request payload could not be decoded"@,
            MsgHandlingError::SerializationError => "The response could not be encoded"@,
            MsgHandlingError::PublishError => "The reply could not be published"@,
        }
    }

    /// A human-readable description of the error.
    pub fn message(&self) -> (text: String)
        ensures
            text@ == self.message_spec(),
    {
        match self {
            MsgHandlingError::NoResponseTopicError => String::from_str(
                "No response topic was provided",
            ),
            MsgHandlingError::NoHandlerForTopicError => String::from_str(
                "No handler was registered for this topic",
            ),
            MsgHandlingError::DeserializationError => String::from_str(
                "The request payload could not be decoded",
            ),
            MsgHandlingError::SerializationError => String::from_str(
                "The response could not be encoded",
            ),
            MsgHandlingError::PublishError => String::from_str("The reply could not be published"),
        }
    }
}

} // verus!
