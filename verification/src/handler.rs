use crate::error::MsgHandlingError;
use crate::message::{Message, MessageView, Metadata, MetadataView};
use vstd::prelude::*;

verus! {

/// The metadata of the reply to a request: the request's correlation
/// token, unchanged, and nothing else.
pub open spec fn response_metadata(req: MessageView) -> MetadataView {
    MetadataView { response_topic: None, correlation_token: req.metadata.correlation_token }
}

/// The reply to `req` that carries `payload`: addressed to the request's
/// response topic, at the request's quality of service.
pub open spec fn reply_view(req: MessageView, payload: Seq<u8>) -> MessageView
    recommends
        req.metadata.response_topic is Some,
{
    MessageView {
        topic: req.metadata.response_topic->0,
        payload,
        qos: req.qos,
        metadata: response_metadata(req),
    }
}

/// Builds the metadata of the reply to `msg`.
pub fn response_properties(msg: &Message) -> (props: Metadata)
    ensures
        props@ == response_metadata(msg@),
{
    match msg.correlation_token() {
        Some(token) => Metadata { response_topic: None, correlation_token: Some(token.clone()) },
        None => Metadata::empty(),
    }
}

/// Builds the reply to `req` around an encoded response.
///
/// Fails, and builds nothing, exactly when the request names no response
/// topic.
pub fn reply(req: &Message, payload: Vec<u8>) -> (outcome: Result<Message, MsgHandlingError>)
    ensures
        match req@.metadata.response_topic {
            Some(_) => outcome matches Ok(message) && message@ == reply_view(req@, payload@),
            None => outcome == Err::<Message, MsgHandlingError>(
                MsgHandlingError::NoResponseTopicError,
            ),
        },
{
    match req.response_topic() {
        Ok(topic) => Ok(
            Message {
                topic: topic.clone(),
                payload,
                qos: req.qos,
                metadata: response_properties(req),
            },
        ),
        Err(error) => Err(error),
    }
}

/// Whether `outcome` is a possible result of answering `req` with the
/// given codec and business logic.
///
/// A reply stands for a request that was decoded, a response that the
/// logic gave for it, and the encoding of that response. Each error
/// names the first step that failed.
pub open spec fn responds<In, Out, DecodeError, EncodeError, D, F, E>(
    decode: D,
    logic: F,
    encode: E,
    req: Message,
    outcome: Result<Message, MsgHandlingError>,
) -> bool where
    D: Fn(&Vec<u8>) -> Result<In, DecodeError>,
    F: Fn(In) -> Out,
    E: Fn(&Out) -> Result<Vec<u8>, EncodeError>,
 {
    match outcome {
        Ok(message) => {
            &&& req@.metadata.response_topic is Some
            &&& exists|request: In, response: Out, payload: Vec<u8>|
                {
                    &&& #[trigger] call_ensures(decode, (&req.payload,), Ok(request))
                    &&& #[trigger] call_ensures(logic, (request,), response)
                    &&& #[trigger] call_ensures(encode, (&response,), Ok(payload))
                    &&& message@ == reply_view(req@, payload@)
                }
        },
        Err(MsgHandlingError::NoResponseTopicError) => req@.metadata.response_topic is None,
        Err(MsgHandlingError::DeserializationError) => {
            &&& req@.metadata.response_topic is Some
            &&& exists|error: DecodeError| #[trigger]
                call_ensures(decode, (&req.payload,), Err(error))
        },
        Err(MsgHandlingError::SerializationError) => {
            &&& req@.metadata.response_topic is Some
            &&& exists|request: In, response: Out, error: EncodeError|
                {
                    &&& #[trigger] call_ensures(decode, (&req.payload,), Ok(request))
                    &&& #[trigger] call_ensures(logic, (request,), response)
                    &&& #[trigger] call_ensures(encode, (&response,), Err(error))
                }
        },
        Err(_) => false,
    }
}

/// Whether the codec and the logic can be run on the payload of `req`:
/// each accepts whatever the step before it may hand over.
pub open spec fn can_respond<In, Out, DecodeError, EncodeError, D, F, E>(
    decode: D,
    logic: F,
    encode: E,
    req: Message,
) -> bool where
    D: Fn(&Vec<u8>) -> Result<In, DecodeError>,
    F: Fn(In) -> Out,
    E: Fn(&Out) -> Result<Vec<u8>, EncodeError>,
 {
    &&& call_requires(decode, (&req.payload,))
    &&& forall|request: In| #[trigger]
        call_ensures(decode, (&req.payload,), Ok(request)) ==> call_requires(logic, (request,))
    &&& forall|request: In, response: Out|
        call_ensures(decode, (&req.payload,), Ok(request)) && #[trigger] call_ensures(
            logic,
            (request,),
            response,
        ) ==> call_requires(encode, (&response,))
}

/// Answers one request: decodes its payload, runs the business logic on
/// it, encodes the response and wraps it into the reply.
///
/// Nothing is decoded before the response topic has been found, and the
/// reply exists only when every step succeeded.
pub fn respond_generic<In, Out, DecodeError, EncodeError, D, F, E>(
    req: &Message,
    decode: &D,
    logic: &F,
    encode: &E,
) -> (outcome: Result<Message, MsgHandlingError>) where
    D: Fn(&Vec<u8>) -> Result<In, DecodeError>,
    F: Fn(In) -> Out,
    E: Fn(&Out) -> Result<Vec<u8>, EncodeError>,

    requires
        req@.metadata.response_topic is Some ==> can_respond(*decode, *logic, *encode, *req),
    ensures
        responds(*decode, *logic, *encode, *req, outcome),
{
    if req.response_topic().is_err() {
        return Err(MsgHandlingError::NoResponseTopicError);
    }
    let request = match decode(&req.payload) {
        Ok(request) => request,
        Err(_) => {
            return Err(MsgHandlingError::DeserializationError);
        },
    };
    let response = logic(request);
    match encode(&response) {
        Ok(payload) => {
            reply(req, payload)
        },
        Err(_) => Err(MsgHandlingError::SerializationError),
    }
}

/// A reply goes where the request asked for it, at the request's
/// quality of service, and carries the request's correlation token
/// unchanged: the same bytes where the request has one, none where it
/// has none.
pub proof fn lemma_reply_echoes_request<In, Out, DecodeError, EncodeError, D, F, E>(
    decode: D,
    logic: F,
    encode: E,
    req: Message,
    message: Message,
) where
    D: Fn(&Vec<u8>) -> Result<In, DecodeError>,
    F: Fn(In) -> Out,
    E: Fn(&Out) -> Result<Vec<u8>, EncodeError>,

    requires
        responds(decode, logic, encode, req, Ok(message)),
    ensures
        req@.metadata.response_topic == Some(message@.topic),
        message@.qos == req@.qos,
        message@.metadata.correlation_token == req@.metadata.correlation_token,
        message@.metadata.response_topic is None,
{
}

/// A request that names no response topic gets no reply: answering it
/// fails, and reports the missing topic.
pub proof fn lemma_request_without_response_topic<In, Out, DecodeError, EncodeError, D, F, E>(
    decode: D,
    logic: F,
    encode: E,
    req: Message,
    outcome: Result<Message, MsgHandlingError>,
) where
    D: Fn(&Vec<u8>) -> Result<In, DecodeError>,
    F: Fn(In) -> Out,
    E: Fn(&Out) -> Result<Vec<u8>, EncodeError>,

    requires
        req@.metadata.response_topic is None,
        responds(decode, logic, encode, req, outcome),
    ensures
        outcome == Err::<Message, MsgHandlingError>(MsgHandlingError::NoResponseTopicError),
{
}

/// Turns business logic and a codec into a message handler.
///
/// The handler answers every message as `respond_generic` does.
pub fn responding_handler<In, Out, DecodeError, EncodeError, D, F, E>(
    decode: D,
    logic: F,
    encode: E,
) -> (handler: impl Fn(&Message) -> Result<Message, MsgHandlingError>) where
    D: Fn(&Vec<u8>) -> Result<In, DecodeError>,
    F: Fn(In) -> Out,
    E: Fn(&Out) -> Result<Vec<u8>, EncodeError>,

    requires
        forall|req: Message|
            req@.metadata.response_topic is Some ==> #[trigger] can_respond(
                decode,
                logic,
                encode,
                req,
            ),
    ensures
        forall|req: &Message| #[trigger] call_requires(handler, (req,)),
        forall|req: &Message, outcome: Result<Message, MsgHandlingError>| #[trigger]
            call_ensures(handler, (req,), outcome) ==> responds(
                decode,
                logic,
                encode,
                *req,
                outcome,
            ),
{
    move |req: &Message| -> (outcome: Result<Message, MsgHandlingError>)
        ensures
            responds(decode, logic, encode, *req, outcome),
        {
            assert(req@.metadata.response_topic is Some ==> can_respond(
                decode,
                logic,
                encode,
                *req,
            ));
            respond_generic(req, &decode, &logic, &encode)
        }
}

/// The handler for topics that nothing is registered for.
///
/// It answers no message: whatever arrives, it reports that the topic
/// has no handler.
pub fn no_such_topic_handler() -> (handler: impl Fn(&Message) -> Result<Message, MsgHandlingError>)
    ensures
        forall|req: &Message| #[trigger] call_requires(handler, (req,)),
        forall|req: &Message, outcome: Result<Message, MsgHandlingError>| #[trigger]
            call_ensures(handler, (req,), outcome) ==> outcome == Err::<Message, MsgHandlingError>(
                MsgHandlingError::NoHandlerForTopicError,
            ),
{
    |_req: &Message| -> (outcome: Result<Message, MsgHandlingError>)
        ensures
            outcome == Err::<Message, MsgHandlingError>(MsgHandlingError::NoHandlerForTopicError),
        { Err(MsgHandlingError::NoHandlerForTopicError) }
}

} // verus!
