use crate::error::MsgHandlingError;
use vstd::prelude::*;

verus! {

/// The delivery guarantee attached to a message.
#[derive(Debug, Clone, Copy, PartialEq, Eq, Structural)]
pub enum QualityOfService {
    AtMostOnce,
    AtLeastOnce,
    ExactlyOnce,
}

impl QualityOfService {
    /// The numeric level of each guarantee.
    pub open spec fn level_spec(self) -> int {
        match self {
            QualityOfService::AtMostOnce => 0,
            QualityOfService::AtLeastOnce => 1,
            QualityOfService::ExactlyOnce => 2,
        }
    }

    /// The numeric level that the transport uses for this guarantee.
    pub fn level(self) -> (level: i32)
        ensures
            level == self.level_spec(),
    {
        match self {
            QualityOfService::AtMostOnce => 0,
            QualityOfService::AtLeastOnce => 1,
            QualityOfService::ExactlyOnce => 2,
        }
    }

    /// The guarantee with the given numeric level, if there is one.
    pub fn from_level(level: i32) -> (qos: Option<QualityOfService>)
        ensures
            0 <= level <= 2 <==> qos is Some,
            qos matches Some(q) ==> q.level_spec() == level,
    {
        if level == 0 {
            Some(QualityOfService::AtMostOnce)
        } else if level == 1 {
            Some(QualityOfService::AtLeastOnce)
        } else if level == 2 {
            Some(QualityOfService::ExactlyOnce)
        } else {
            None
        }
    }
}

/// Routing metadata of a message.
#[derive(Debug, Clone, PartialEq, Eq)]
pub struct Metadata {
    /// Where a reply to this message is to be published.
    pub response_topic: Option<String>,
    /// Opaque bytes by which the requester matches a reply to its request.
    pub correlation_token: Option<Vec<u8>>,
}

/// What a `Metadata` value holds.
pub struct MetadataView {
    pub response_topic: Option<Seq<char>>,
    pub correlation_token: Option<Seq<u8>>,
}

impl View for Metadata {
    type V = MetadataView;

    open spec fn view(&self) -> MetadataView {
        MetadataView {
            response_topic: match self.response_topic {
                Some(topic) => Some(topic@),
                None => None,
            },
            correlation_token: match self.correlation_token {
                Some(token) => Some(token@),
                None => None,
            },
        }
    }
}

impl Metadata {
    /// Metadata that carries nothing.
    pub fn empty() -> (metadata: Metadata)
        ensures
            metadata@ == (MetadataView { response_topic: None, correlation_token: None }),
    {
        Metadata { response_topic: None, correlation_token: None }
    }
}

/// The envelope in which the transport delivers and accepts payloads.
#[derive(Debug, Clone, PartialEq, Eq)]
pub struct Message {
    pub topic: String,
    pub payload: Vec<u8>,
    pub qos: QualityOfService,
    pub metadata: Metadata,
}

/// What a `Message` holds.
pub struct MessageView {
    pub topic: Seq<char>,
    pub payload: Seq<u8>,
    pub qos: QualityOfService,
    pub metadata: MetadataView,
}

impl View for Message {
    type V = MessageView;

    open spec fn view(&self) -> MessageView {
        MessageView {
            topic: self.topic@,
            payload: self.payload@,
            qos: self.qos,
            metadata: self.metadata@,
        }
    }
}

impl Message {
    /// The topic on which a reply to this message is to be published.
    ///
    /// A message that names none cannot be answered.
    pub fn response_topic(&self) -> (topic: Result<&String, MsgHandlingError>)
        ensures
            match self@.metadata.response_topic {
                Some(expected) => topic matches Ok(found) && found@ == expected,
                None => topic == Err::<&String, MsgHandlingError>(
                    MsgHandlingError::NoResponseTopicError,
                ),
            },
    {
        match &self.metadata.response_topic {
            Some(topic) => Ok(topic),
            None => Err(MsgHandlingError::NoResponseTopicError),
        }
    }

    /// The correlation token of this message, if it carries one.
    pub fn correlation_token(&self) -> (token: Option<&Vec<u8>>)
        ensures
            match self@.metadata.correlation_token {
                Some(expected) => token matches Some(found) && found@ == expected,
                None => token is None,
            },
    {
        match &self.metadata.correlation_token {
            Some(token) => Some(token),
            None => None,
        }
    }
}

} // verus!
