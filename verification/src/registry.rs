use crate::error::MsgHandlingError;
use crate::message::Message;
use vstd::prelude::*;
use vstd::string::StringExecFns;

verus! {

/// Why a registration was refused: the topic already has a handler.
#[derive(Debug, Clone, Copy, PartialEq, Eq, Structural)]
pub struct TopicAlreadyRegistered;

/// What a topic resolves to.
pub enum Resolved<'a, H> {
    /// The handler that was registered for exactly this topic.
    Registered(&'a H),
    /// No handler was registered for the topic: the fallback answers.
    Fallback,
}

/// Where `topic` stands among `topics`, if it stands there at all.
pub open spec fn position_in(topics: Seq<Seq<char>>, topic: Seq<char>) -> Option<int> {
    if topics.contains(topic) {
        Some(topics.index_of(topic))
    } else {
        None
    }
}

/// The handlers of a responder, each under the topic it answers.
///
/// Topics are told apart by exact equality, and each has at most one
/// handler. The registry keeps them in the order of registration.
pub struct HandlerRegistry<H> {
    topics: Vec<String>,
    handlers: Vec<H>,
}

impl<H: Fn(&Message) -> Result<Message, MsgHandlingError>> HandlerRegistry<H> {
    /// The registered topics, in the order of registration.
    pub closed spec fn topics(&self) -> Seq<Seq<char>> {
        Seq::new(self.topics@.len(), |i: int| self.topics@[i]@)
    }

    /// The registered handlers: the one at each index answers the topic
    /// at that index.
    pub closed spec fn handlers(&self) -> Seq<H> {
        self.handlers@
    }

    /// Every topic has one handler, no topic stands twice, and every
    /// handler accepts every message.
    pub open spec fn wf(&self) -> bool {
        &&& self.handlers().len() == self.topics().len()
        &&& self.topics().no_duplicates()
        &&& forall|i: int, msg: &Message|
            0 <= i < self.handlers().len() ==> #[trigger] call_requires(
                self.handlers()[i],
                (msg,),
            )
    }

    /// Where `topic` is registered, if it is.
    pub open spec fn position(&self, topic: Seq<char>) -> Option<int> {
        position_in(self.topics(), topic)
    }

    /// The handler that is registered for `topic`, if there is one.
    pub open spec fn handler_for(&self, topic: Seq<char>) -> Option<H> {
        match self.position(topic) {
            Some(index) => Some(self.handlers()[index]),
            None => None,
        }
    }

    /// Whether `outcome` is a possible result of dispatching `msg`: the
    /// answer of the handler registered for its topic, or the refusal of
    /// the fallback where there is none.
    pub open spec fn dispatches(
        &self,
        msg: Message,
        outcome: Result<Message, MsgHandlingError>,
    ) -> bool {
        match self.handler_for(msg.topic@) {
            Some(handler) => call_ensures(handler, (&msg,), outcome),
            None => outcome == Err::<Message, MsgHandlingError>(
                MsgHandlingError::NoHandlerForTopicError,
            ),
        }
    }

    /// A registry holds no more topics than can be counted.
    pub proof fn lemma_len_fits(&self)
        ensures
            self.topics().len() <= usize::MAX,
    {
        assert(self.topics@.len() == self.topics.len());
    }

    /// A registry without handlers.
    pub fn new() -> (registry: Self)
        ensures
            registry.wf(),
            registry.topics() == Seq::<Seq<char>>::empty(),
            registry.handlers() == Seq::<H>::empty(),
    {
        HandlerRegistry { topics: Vec::new(), handlers: Vec::new() }
    }

    /// The number of registered topics.
    pub fn len(&self) -> (count: usize)
        ensures
            count == self.topics().len(),
    {
        self.topics.len()
    }

    /// The topic that was registered at `index`.
    pub fn topic(&self, index: usize) -> (topic: &String)
        requires
            index < self.topics().len(),
        ensures
            topic@ == self.topics()[index as int],
    {
        &self.topics[index]
    }

    /// The handler that was registered at `index`.
    pub fn handler(&self, index: usize) -> (handler: &H)
        requires
            self.wf(),
            index < self.topics().len(),
        ensures
            *handler == self.handlers()[index as int],
    {
        &self.handlers[index]
    }

    /// Finds the index at which `topic` is registered.
    pub fn find(&self, topic: &String) -> (found: Option<usize>)
        requires
            self.wf(),
        ensures
            match found {
                Some(index) => index < self.topics().len() && self.position(topic@) == Some(
                    index as int,
                ),
                None => self.position(topic@) is None,
            },
    {
        let mut index: usize = 0;
        while index < self.topics.len()
            invariant
                index <= self.topics.len(),
                self.wf(),
                forall|i: int| 0 <= i < index ==> self.topics()[i] != topic@,
            decreases self.topics.len() - index,
        {
            if self.topics[index] == *topic {
                assert(self.topics()[index as int] == topic@);
                return Some(index);
            }
            index += 1;
        }
        None
    }

    /// Registers `handler` for `topic`.
    ///
    /// Fails, and leaves the registry as it was, when the topic already
    /// has a handler.
    pub fn register(&mut self, topic: String, handler: H) -> (outcome: Result<
        (),
        TopicAlreadyRegistered,
    >)
        requires
            old(self).wf(),
            forall|msg: &Message| #[trigger] call_requires(handler, (msg,)),
        ensures
            final(self).wf(),
            old(self).topics().contains(topic@) ==> {
                &&& outcome is Err
                &&& final(self).topics() == old(self).topics()
                &&& final(self).handlers() == old(self).handlers()
            },
            !old(self).topics().contains(topic@) ==> {
                &&& outcome is Ok
                &&& final(self).topics() == old(self).topics().push(topic@)
                &&& final(self).handlers() == old(self).handlers().push(handler)
            },
    {
        if self.find(&topic).is_some() {
            return Err(TopicAlreadyRegistered);
        }
        self.topics.push(topic);
        self.handlers.push(handler);
        assert(self.topics() == old(self).topics().push(topic@));
        Ok(())
    }

    /// Resolves `topic` to its handler, or to the fallback when nothing
    /// is registered for exactly this topic.
    pub fn resolve(&self, topic: &String) -> (resolved: Resolved<'_, H>)
        requires
            self.wf(),
        ensures
            match self.handler_for(topic@) {
                Some(handler) => resolved matches Resolved::Registered(found) && *found == handler,
                None => resolved is Fallback,
            },
    {
        match self.find(topic) {
            Some(index) => Resolved::Registered(&self.handlers[index]),
            None => Resolved::Fallback,
        }
    }

    /// Hands `msg` to the handler of its topic and returns what the
    /// handler returns. A message on a topic without a handler is
    /// refused.
    pub fn dispatch(&self, msg: &Message) -> (outcome: Result<Message, MsgHandlingError>)
        requires
            self.wf(),
        ensures
            self.dispatches(*msg, outcome),
    {
        match self.resolve(&msg.topic) {
            Resolved::Registered(handler) => handler(msg),
            Resolved::Fallback => Err(MsgHandlingError::NoHandlerForTopicError),
        }
    }
}

/// A handler answers the topic under which it was registered, and the
/// registration changes what no other topic resolves to.
pub proof fn lemma_registration_binds_topic<H: Fn(&Message) -> Result<Message, MsgHandlingError>>(
    before: HandlerRegistry<H>,
    after: HandlerRegistry<H>,
    topic: Seq<char>,
    handler: H,
    other: Seq<char>,
)
    requires
        before.wf(),
        !before.topics().contains(topic),
        after.topics() == before.topics().push(topic),
        after.handlers() == before.handlers().push(handler),
    ensures
        after.handler_for(topic) == Some(handler),
        other != topic ==> after.handler_for(other) == before.handler_for(other),
{
    let last = before.topics().len() as int;
    assert(after.topics()[last] == topic);
    assert(after.topics().index_of(topic) == last);
    if other != topic {
        if before.topics().contains(other) {
            let index = before.topics().index_of(other);
            assert(after.topics()[index] == other);
            let found = after.topics().index_of(other);
            assert(found != last);
            assert(before.topics()[found] == other);
        } else if after.topics().contains(other) {
            let found = after.topics().index_of(other);
            assert(before.topics()[found] == other);
        }
    }
}

/// A message on a registered topic is answered by the handler that was
/// registered for that topic, and by no other.
pub proof fn lemma_dispatch_reaches_handler<H: Fn(&Message) -> Result<Message, MsgHandlingError>>(
    registry: HandlerRegistry<H>,
    index: int,
    msg: Message,
    outcome: Result<Message, MsgHandlingError>,
)
    requires
        registry.wf(),
        0 <= index < registry.topics().len(),
        msg.topic@ == registry.topics()[index],
        registry.dispatches(msg, outcome),
    ensures
        registry.handler_for(msg.topic@) == Some(registry.handlers()[index]),
        call_ensures(registry.handlers()[index], (&msg,), outcome),
{
    assert(registry.topics().contains(msg.topic@));
}

/// A message on a topic without a handler is refused, whatever it
/// holds: the fallback answers, and it answers with an error.
pub proof fn lemma_dispatch_refuses_unknown_topic<
    H: Fn(&Message) -> Result<Message, MsgHandlingError>,
>(registry: HandlerRegistry<H>, msg: Message, outcome: Result<Message, MsgHandlingError>)
    requires
        !registry.topics().contains(msg.topic@),
        registry.dispatches(msg, outcome),
    ensures
        registry.handler_for(msg.topic@) is None,
        outcome == Err::<Message, MsgHandlingError>(MsgHandlingError::NoHandlerForTopicError),
{
}

/// The topics on which the responder answers, in the order in which
/// `handlers_map` registers them.
pub open spec fn served_topics() -> Seq<Seq<char>> {
    seq!["rust/reverse"@, "rust/add"@, "rust/sub"@]
}

/// The registry of the responder: `reverse` answers on "rust/reverse",
/// `add` on "rust/add" and `sub` on "rust/sub".
pub fn handlers_map<H: Fn(&Message) -> Result<Message, MsgHandlingError>>(
    reverse: H,
    add: H,
    sub: H,
) -> (registry: HandlerRegistry<H>)
    requires
        forall|msg: &Message| #[trigger] call_requires(reverse, (msg,)),
        forall|msg: &Message| #[trigger] call_requires(add, (msg,)),
        forall|msg: &Message| #[trigger] call_requires(sub, (msg,)),
    ensures
        registry.wf(),
        registry.topics() == served_topics(),
        registry.handlers() == seq![reverse, add, sub],
{
    proof {
        reveal_strlit("rust/reverse");
        reveal_strlit("rust/add");
        reveal_strlit("rust/sub");
        assert("rust/reverse"@.len() != "rust/add"@.len());
        assert("rust/reverse"@.len() != "rust/sub"@.len());
        assert("rust/add"@[5] != "rust/sub"@[5]);
    }
    let mut registry = HandlerRegistry::new();
    let _ = registry.register(String::from_str("rust/reverse"), reverse);
    assert(registry.topics() =~= seq!["rust/reverse"@]);
    let _ = registry.register(String::from_str("rust/add"), add);
    assert(registry.topics() =~= seq!["rust/reverse"@, "rust/add"@]);
    let _ = registry.register(String::from_str("rust/sub"), sub);
    assert(registry.topics() =~= served_topics());
    assert(registry.handlers() =~= seq![reverse, add, sub]);
    registry
}

} // verus!
