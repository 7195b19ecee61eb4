use responder::error::MsgHandlingError;
use responder::handler::{
    no_such_topic_handler, reply, respond_generic, responding_handler, response_properties,
};
use responder::logic::{reverse, CalcRequest, Response, ReverseRequest};
use responder::message::{Message, Metadata, QualityOfService};
use serde_json::Value;
use std::cell::Cell;

fn request(payload: &str, qos: QualityOfService, metadata: Metadata) -> Message {
    Message { topic: "rust/request".to_string(), payload: payload.as_bytes().to_vec(), qos, metadata }
}

fn answerable(payload: &str) -> Message {
    request(
        payload,
        QualityOfService::AtLeastOnce,
        Metadata { response_topic: Some("replies/here".to_string()), correlation_token: None },
    )
}

fn decode_reverse(payload: &Vec<u8>) -> Result<ReverseRequest, String> {
    let document: Value = serde_json::from_slice(payload).map_err(|e| e.to_string())?;
    let value = document.get("value").and_then(Value::as_str).ok_or("no value")?;
    Ok(ReverseRequest { value: value.to_string() })
}

fn decode_calc(payload: &Vec<u8>) -> Result<CalcRequest, String> {
    let document: Value = serde_json::from_slice(payload).map_err(|e| e.to_string())?;
    let x = document.get("x").and_then(Value::as_i64).ok_or("no x")?;
    let y = document.get("y").and_then(Value::as_i64).ok_or("no y")?;
    Ok(CalcRequest {
        x: i32::try_from(x).map_err(|e| e.to_string())?,
        y: i32::try_from(y).map_err(|e| e.to_string())?,
    })
}

fn encode_text(response: &Response<String>) -> Result<Vec<u8>, serde_json::Error> {
    let mut document = serde_json::Map::new();
    document.insert("result".to_string(), Value::from(response.result.clone()));
    serde_json::to_vec(&Value::Object(document))
}

fn encode_number(response: &Response<i32>) -> Result<Vec<u8>, serde_json::Error> {
    let mut document = serde_json::Map::new();
    document.insert("result".to_string(), Value::from(response.result));
    serde_json::to_vec(&Value::Object(document))
}

fn refuse_to_encode(_response: &Response<i32>) -> Result<Vec<u8>, String> {
    Err("cannot be written".to_string())
}

fn parsed(payload: &[u8]) -> Value {
    serde_json::from_slice(payload).unwrap()
}

#[test]
fn reverse_request_is_answered_on_the_response_topic() {
    let req = request(
        "{\"value\": \"abc\"}",
        QualityOfService::ExactlyOnce,
        Metadata { response_topic: Some("replies/reverse".to_string()), correlation_token: None },
    );
    let message = respond_generic(&req, &decode_reverse, &reverse, &encode_text).unwrap();
    assert_eq!(message.topic, "replies/reverse");
    assert_eq!(message.qos, QualityOfService::ExactlyOnce);
    assert_eq!(message.payload, b"{\"result\":\"cba\"}".to_vec());
    assert_eq!(message.metadata, Metadata::empty());
}

#[test]
fn add_request_is_answered_with_the_sum() {
    let req = answerable("{\"x\": 2, \"y\": 3}");
    let message = respond_generic(&req, &decode_calc, &responder::logic::add, &encode_number).unwrap();
    assert_eq!(message.payload, b"{\"result\":5}".to_vec());
    assert_eq!(parsed(&message.payload).get("result"), Some(&Value::from(5)));
}

#[test]
fn sub_request_is_answered_with_the_difference() {
    let req = answerable("{\"x\": 2, \"y\": 3}");
    let message = respond_generic(&req, &decode_calc, &responder::logic::sub, &encode_number).unwrap();
    assert_eq!(message.payload, b"{\"result\":-1}".to_vec());
    assert_eq!(parsed(&message.payload).get("result"), Some(&Value::from(-1)));
}

#[test]
fn reply_keeps_the_quality_of_service_of_the_request() {
    for qos in [
        QualityOfService::AtMostOnce,
        QualityOfService::AtLeastOnce,
        QualityOfService::ExactlyOnce,
    ] {
        let mut req = answerable("{\"x\": 1, \"y\": 1}");
        req.qos = qos;
        let message = respond_generic(&req, &decode_calc, &responder::logic::add, &encode_number).unwrap();
        assert_eq!(message.qos, qos);
    }
}

#[test]
fn reply_carries_the_correlation_token_unchanged() {
    let token = vec![0u8, 1, 2, 255, 0, 128];
    let req = request(
        "{\"value\": \"xy\"}",
        QualityOfService::AtLeastOnce,
        Metadata {
            response_topic: Some("replies/1".to_string()),
            correlation_token: Some(token.clone()),
        },
    );
    let message = respond_generic(&req, &decode_reverse, &reverse, &encode_text).unwrap();
    assert_eq!(message.metadata.correlation_token, Some(token));
    assert_eq!(message.metadata.response_topic, None);
}

#[test]
fn reply_to_a_request_without_token_carries_none() {
    let req = answerable("{\"value\": \"xy\"}");
    let message = respond_generic(&req, &decode_reverse, &reverse, &encode_text).unwrap();
    assert_eq!(message.metadata.correlation_token, None);
}

#[test]
fn request_without_response_topic_is_not_answered() {
    let req = request(
        "{\"value\": \"abc\"}",
        QualityOfService::AtLeastOnce,
        Metadata { response_topic: None, correlation_token: Some(vec![9]) },
    );
    let outcome = respond_generic(&req, &decode_reverse, &reverse, &encode_text);
    assert_eq!(outcome, Err(MsgHandlingError::NoResponseTopicError));
}

#[test]
fn response_topic_is_looked_for_before_anything_is_decoded() {
    let decoded = Cell::new(0);
    let decode = |payload: &Vec<u8>| {
        decoded.set(decoded.get() + 1);
        decode_reverse(payload)
    };
    let req = request("not json", QualityOfService::AtMostOnce, Metadata::empty());
    let outcome = respond_generic(&req, &decode, &reverse, &encode_text);
    assert_eq!(outcome, Err(MsgHandlingError::NoResponseTopicError));
    assert_eq!(decoded.get(), 0);
}

#[test]
fn malformed_payload_is_a_deserialization_error() {
    for payload in ["", "not json", "{\"value\": 3}", "{\"other\": \"abc\"}", "[1, 2"] {
        let outcome =
            respond_generic(&answerable(payload), &decode_reverse, &reverse, &encode_text);
        assert_eq!(outcome, Err(MsgHandlingError::DeserializationError));
    }
}

#[test]
fn number_out_of_range_is_a_deserialization_error() {
    let req = answerable("{\"x\": 2147483648, \"y\": 0}");
    let outcome = respond_generic(&req, &decode_calc, &responder::logic::add, &encode_number);
    assert_eq!(outcome, Err(MsgHandlingError::DeserializationError));
}

#[test]
fn logic_does_not_run_on_a_malformed_payload() {
    let ran = Cell::new(0);
    let logic = |req: CalcRequest| {
        ran.set(ran.get() + 1);
        responder::logic::add(req)
    };
    let outcome = respond_generic(&answerable("{}"), &decode_calc, &logic, &encode_number);
    assert_eq!(outcome, Err(MsgHandlingError::DeserializationError));
    assert_eq!(ran.get(), 0);
}

#[test]
fn failing_encoder_is_a_serialization_error() {
    let req = answerable("{\"x\": 2, \"y\": 3}");
    let outcome = respond_generic(&req, &decode_calc, &responder::logic::add, &refuse_to_encode);
    assert_eq!(outcome, Err(MsgHandlingError::SerializationError));
}

#[test]
fn each_step_runs_once_for_an_answered_request() {
    let decoded = Cell::new(0);
    let ran = Cell::new(0);
    let encoded = Cell::new(0);
    let decode = |payload: &Vec<u8>| {
        decoded.set(decoded.get() + 1);
        decode_calc(payload)
    };
    let logic = |req: CalcRequest| {
        ran.set(ran.get() + 1);
        responder::logic::sub(req)
    };
    let encode = |response: &Response<i32>| {
        encoded.set(encoded.get() + 1);
        encode_number(response)
    };
    let req = answerable("{\"x\": 10, \"y\": 4}");
    let message = respond_generic(&req, &decode, &logic, &encode).unwrap();
    assert_eq!(message.payload, b"{\"result\":6}".to_vec());
    assert_eq!((decoded.get(), ran.get(), encoded.get()), (1, 1, 1));
}

#[test]
fn responding_handler_answers_as_respond_generic_does() {
    let handler = responding_handler(decode_reverse, reverse, encode_text);
    let req = request(
        "{\"value\": \"abc\"}",
        QualityOfService::AtMostOnce,
        Metadata {
            response_topic: Some("replies/7".to_string()),
            correlation_token: Some(vec![7]),
        },
    );
    let expected = respond_generic(&req, &decode_reverse, &reverse, &encode_text);
    assert_eq!(handler(&req), expected);
    assert_eq!(
        handler(&req),
        Ok(Message {
            topic: "replies/7".to_string(),
            payload: b"{\"result\":\"cba\"}".to_vec(),
            qos: QualityOfService::AtMostOnce,
            metadata: Metadata { response_topic: None, correlation_token: Some(vec![7]) },
        })
    );
}

#[test]
fn responding_handler_reports_each_error() {
    let handler = responding_handler(decode_calc, responder::logic::add, encode_number);
    let unanswerable = request("{}", QualityOfService::AtMostOnce, Metadata::empty());
    assert_eq!(handler(&unanswerable), Err(MsgHandlingError::NoResponseTopicError));
    assert_eq!(handler(&answerable("{}")), Err(MsgHandlingError::DeserializationError));
    let mute = responding_handler(decode_calc, responder::logic::add, refuse_to_encode);
    assert_eq!(
        mute(&answerable("{\"x\": 1, \"y\": 2}")),
        Err(MsgHandlingError::SerializationError)
    );
}

#[test]
fn responding_handler_can_be_used_again() {
    let handler = responding_handler(decode_calc, responder::logic::add, encode_number);
    for x in 0..5 {
        let payload = serde_json::to_string(&Value::Object(serde_json::Map::from_iter([
            ("x".to_string(), Value::from(x)),
            ("y".to_string(), Value::from(100)),
        ])))
        .unwrap();
        let message = handler(&answerable(&payload)).unwrap();
        assert_eq!(parsed(&message.payload).get("result"), Some(&Value::from(x + 100)));
    }
}

#[test]
fn fallback_handler_refuses_every_message() {
    let fallback = no_such_topic_handler();
    let messages = [
        answerable("{\"value\": \"abc\"}"),
        request("", QualityOfService::AtMostOnce, Metadata::empty()),
        request(
            "{\"x\": 1, \"y\": 2}",
            QualityOfService::ExactlyOnce,
            Metadata {
                response_topic: Some("replies/2".to_string()),
                correlation_token: Some(vec![1]),
            },
        ),
    ];
    for message in messages.iter() {
        assert_eq!(fallback(message), Err(MsgHandlingError::NoHandlerForTopicError));
    }
}

#[test]
fn response_properties_hold_the_token_and_nothing_else() {
    let req = request(
        "",
        QualityOfService::AtMostOnce,
        Metadata {
            response_topic: Some("replies/3".to_string()),
            correlation_token: Some(vec![1, 2, 3]),
        },
    );
    assert_eq!(
        response_properties(&req),
        Metadata { response_topic: None, correlation_token: Some(vec![1, 2, 3]) }
    );
}

#[test]
fn response_properties_are_empty_without_a_token() {
    let req = answerable("");
    assert_eq!(response_properties(&req), Metadata::empty());
}

#[test]
fn reply_wraps_the_payload_as_it_is() {
    let req = request(
        "ignored",
        QualityOfService::ExactlyOnce,
        Metadata {
            response_topic: Some("replies/4".to_string()),
            correlation_token: Some(vec![]),
        },
    );
    assert_eq!(
        reply(&req, vec![0, 159, 146, 150]),
        Ok(Message {
            topic: "replies/4".to_string(),
            payload: vec![0, 159, 146, 150],
            qos: QualityOfService::ExactlyOnce,
            metadata: Metadata { response_topic: None, correlation_token: Some(vec![]) },
        })
    );
}

#[test]
fn reply_needs_a_response_topic() {
    let req = request("", QualityOfService::AtMostOnce, Metadata::empty());
    assert_eq!(reply(&req, vec![1]), Err(MsgHandlingError::NoResponseTopicError));
}

#[test]
fn encoded_response_decodes_to_the_same_response() {
    for result in [i32::MIN, -1, 0, 5, i32::MAX] {
        let encoded = encode_number(&Response { result }).unwrap();
        assert_eq!(parsed(&encoded).get("result").and_then(Value::as_i64), Some(result as i64));
    }
    let encoded = encode_text(&Response { result: "q\"uote\\".to_string() }).unwrap();
    assert_eq!(parsed(&encoded).get("result").and_then(Value::as_str), Some("q\"uote\\"));
}
