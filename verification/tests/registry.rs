use responder::error::MsgHandlingError;
use responder::message::{Message, Metadata, QualityOfService};
use responder::registry::{handlers_map, HandlerRegistry, Resolved, TopicAlreadyRegistered};
use std::cell::Cell;
use std::rc::Rc;

type Handler = Box<dyn Fn(&Message) -> Result<Message, MsgHandlingError>>;

fn message(topic: &str) -> Message {
    Message {
        topic: topic.to_string(),
        payload: Vec::new(),
        qos: QualityOfService::AtMostOnce,
        metadata: Metadata::empty(),
    }
}

/// A handler that answers with its own name as the payload, and counts
/// how often it was called.
fn named(name: &str, calls: &Rc<Cell<u32>>) -> Handler {
    let payload = name.as_bytes().to_vec();
    let calls = Rc::clone(calls);
    Box::new(move |msg: &Message| {
        calls.set(calls.get() + 1);
        Ok(Message {
            topic: format!("replies/{}", msg.topic),
            payload: payload.clone(),
            qos: msg.qos,
            metadata: Metadata::empty(),
        })
    })
}

fn failing(error: MsgHandlingError) -> Handler {
    Box::new(move |_msg: &Message| Err(error))
}

#[test]
fn new_registry_is_empty() {
    let registry: HandlerRegistry<Handler> = HandlerRegistry::new();
    assert_eq!(registry.len(), 0);
    assert_eq!(registry.find(&"rust/add".to_string()), None);
}

#[test]
fn registered_topics_keep_their_order() {
    let calls = Rc::new(Cell::new(0));
    let mut registry = HandlerRegistry::new();
    assert_eq!(registry.register("b".to_string(), named("first", &calls)), Ok(()));
    assert_eq!(registry.register("a".to_string(), named("second", &calls)), Ok(()));
    assert_eq!(registry.register("c".to_string(), named("third", &calls)), Ok(()));
    assert_eq!(registry.len(), 3);
    assert_eq!(registry.topic(0), "b");
    assert_eq!(registry.topic(1), "a");
    assert_eq!(registry.topic(2), "c");
    assert_eq!(registry.find(&"a".to_string()), Some(1));
    assert_eq!(registry.find(&"d".to_string()), None);
}

#[test]
fn topic_cannot_be_registered_twice() {
    let first = Rc::new(Cell::new(0));
    let second = Rc::new(Cell::new(0));
    let mut registry = HandlerRegistry::new();
    assert_eq!(registry.register("rust/add".to_string(), named("first", &first)), Ok(()));
    assert_eq!(
        registry.register("rust/add".to_string(), named("second", &second)),
        Err(TopicAlreadyRegistered)
    );
    assert_eq!(registry.len(), 1);
    let answer = registry.dispatch(&message("rust/add")).unwrap();
    assert_eq!(answer.payload, b"first".to_vec());
    assert_eq!((first.get(), second.get()), (1, 0));
}

#[test]
fn dispatch_calls_the_registered_handler_once() {
    let add = Rc::new(Cell::new(0));
    let sub = Rc::new(Cell::new(0));
    let mut registry = HandlerRegistry::new();
    registry.register("rust/add".to_string(), named("add", &add)).unwrap();
    registry.register("rust/sub".to_string(), named("sub", &sub)).unwrap();
    let answer = registry.dispatch(&message("rust/sub")).unwrap();
    assert_eq!(answer.payload, b"sub".to_vec());
    assert_eq!(answer.topic, "replies/rust/sub");
    assert_eq!((add.get(), sub.get()), (0, 1));
    let answer = registry.dispatch(&message("rust/add")).unwrap();
    assert_eq!(answer.payload, b"add".to_vec());
    assert_eq!((add.get(), sub.get()), (1, 1));
}

#[test]
fn dispatch_hands_on_the_error_of_the_handler() {
    let mut registry = HandlerRegistry::new();
    registry
        .register("rust/add".to_string(), failing(MsgHandlingError::DeserializationError))
        .unwrap();
    assert_eq!(
        registry.dispatch(&message("rust/add")),
        Err(MsgHandlingError::DeserializationError)
    );
}

#[test]
fn unknown_topic_goes_to_the_fallback() {
    let calls = Rc::new(Cell::new(0));
    let mut registry = HandlerRegistry::new();
    registry.register("rust/add".to_string(), named("add", &calls)).unwrap();
    assert_eq!(
        registry.dispatch(&message("rust/mul")),
        Err(MsgHandlingError::NoHandlerForTopicError)
    );
    assert_eq!(calls.get(), 0);
    assert!(matches!(registry.resolve(&"rust/mul".to_string()), Resolved::Fallback));
}

#[test]
fn empty_registry_refuses_every_topic() {
    let registry: HandlerRegistry<Handler> = HandlerRegistry::new();
    for topic in ["", "rust/add", "#"] {
        assert_eq!(
            registry.dispatch(&message(topic)),
            Err(MsgHandlingError::NoHandlerForTopicError)
        );
    }
}

#[test]
fn topics_match_exactly_or_not_at_all() {
    let calls = Rc::new(Cell::new(0));
    let mut registry = HandlerRegistry::new();
    registry.register("rust/add".to_string(), named("add", &calls)).unwrap();
    registry.register("rust/#".to_string(), named("wild", &calls)).unwrap();
    for topic in ["rust/ad", "rust/add/", "Rust/add", "rust/addx", " rust/add", "rust/+", "rust"] {
        assert!(matches!(registry.resolve(&topic.to_string()), Resolved::Fallback));
    }
    assert_eq!(calls.get(), 0);
    assert_eq!(registry.dispatch(&message("rust/#")).unwrap().payload, b"wild".to_vec());
}

#[test]
fn resolve_returns_the_registered_handler() {
    let add = Rc::new(Cell::new(0));
    let sub = Rc::new(Cell::new(0));
    let mut registry = HandlerRegistry::new();
    registry.register("rust/add".to_string(), named("add", &add)).unwrap();
    registry.register("rust/sub".to_string(), named("sub", &sub)).unwrap();
    match registry.resolve(&"rust/add".to_string()) {
        Resolved::Registered(handler) => {
            assert_eq!(handler(&message("any")).unwrap().payload, b"add".to_vec());
        }
        Resolved::Fallback => panic!("a registered topic resolved to the fallback"),
    }
    assert_eq!((add.get(), sub.get()), (1, 0));
    assert_eq!(registry.handler(1)(&message("any")).unwrap().payload, b"sub".to_vec());
}

#[test]
fn handlers_map_serves_the_three_topics() {
    let reverse = Rc::new(Cell::new(0));
    let add = Rc::new(Cell::new(0));
    let sub = Rc::new(Cell::new(0));
    let registry =
        handlers_map(named("reverse", &reverse), named("add", &add), named("sub", &sub));
    assert_eq!(registry.len(), 3);
    assert_eq!(registry.topic(0), "rust/reverse");
    assert_eq!(registry.topic(1), "rust/add");
    assert_eq!(registry.topic(2), "rust/sub");
    assert_eq!(registry.dispatch(&message("rust/reverse")).unwrap().payload, b"reverse".to_vec());
    assert_eq!(registry.dispatch(&message("rust/add")).unwrap().payload, b"add".to_vec());
    assert_eq!(registry.dispatch(&message("rust/sub")).unwrap().payload, b"sub".to_vec());
    assert_eq!((reverse.get(), add.get(), sub.get()), (1, 1, 1));
    assert_eq!(
        registry.dispatch(&message("rust/mul")),
        Err(MsgHandlingError::NoHandlerForTopicError)
    );
}
