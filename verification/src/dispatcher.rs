use crate::error::MsgHandlingError;
use crate::message::{Message, QualityOfService};
use crate::registry::HandlerRegistry;
use vstd::prelude::*;

verus! {

/// How often a lost connection is tried again before the loop gives up.
pub const MAX_RECONNECT_ATTEMPTS: u32 = 12;

/// How long the loop waits before each attempt to reconnect.
pub const RECONNECT_INTERVAL_MS: u64 = 5000;

/// How long one poll waits for a delivery. A stop request is seen at the
/// next poll, so this bounds the time until the loop reacts to it.
pub const POLL_TIMEOUT_MS: u64 = 500;

/// Why the dispatch loop ended.
#[derive(Debug, Clone, Copy, PartialEq, Eq, Structural)]
pub enum ExitReason {
    /// A stop was requested.
    Shutdown,
    /// The connection was lost and every attempt to reconnect failed.
    ReconnectExhausted,
    /// The transport refused the subscription to a registered topic.
    SubscribeFailed,
    /// The driver reported something that the loop was not waiting for.
    UnexpectedEvent,
}

/// The state of the connection as the dispatch loop knows it.
#[derive(Debug, Clone, Copy, PartialEq, Eq, Structural)]
pub enum ConnectionState {
    Connected,
    Disconnected,
    Reconnecting(u32),
    ShuttingDown,
}

/// Where the dispatch loop stands: what it has asked the driver to do
/// and is waiting to hear about.
#[derive(Debug, Clone, Copy, PartialEq, Eq, Structural)]
pub enum Phase {
    /// Nothing was asked yet.
    Idle,
    /// The subscription to the topic at `index` was asked for; `resumed`
    /// tells a subscription after a reconnect from the first one.
    Subscribing { index: usize, resumed: bool },
    /// A poll was asked for.
    Polling,
    /// The reply of the handler at `index` was handed out for publishing.
    Publishing { index: usize },
    /// An error was handed out for reporting.
    Reporting,
    /// A poll came back empty; the liveness of the connection was asked.
    Probing,
    /// The pause before reconnect attempt number `attempt` was asked for.
    Backoff { attempt: u32 },
    /// Reconnect attempt number `attempt` was asked for.
    Reconnecting { attempt: u32 },
    /// The loop is ending; the liveness of the connection was asked.
    Closing { reason: ExitReason },
    /// The loop is ending; the topic at `index` is being unsubscribed.
    Unsubscribing { index: usize, reason: ExitReason },
    /// The loop is ending; the disconnect was asked for.
    Disconnecting { reason: ExitReason },
    /// The loop has ended.
    Finished { reason: ExitReason },
}

impl Phase {
    /// The state of the connection in each phase.
    pub open spec fn connection_state_spec(self) -> ConnectionState {
        match self {
            Phase::Idle => ConnectionState::Connected,
            Phase::Subscribing { .. } => ConnectionState::Connected,
            Phase::Polling => ConnectionState::Connected,
            Phase::Publishing { .. } => ConnectionState::Connected,
            Phase::Reporting => ConnectionState::Connected,
            Phase::Probing => ConnectionState::Disconnected,
            Phase::Backoff { attempt } => ConnectionState::Reconnecting(attempt),
            Phase::Reconnecting { attempt } => ConnectionState::Reconnecting(attempt),
            Phase::Closing { .. } => ConnectionState::ShuttingDown,
            Phase::Unsubscribing { .. } => ConnectionState::ShuttingDown,
            Phase::Disconnecting { .. } => ConnectionState::ShuttingDown,
            Phase::Finished { .. } => ConnectionState::ShuttingDown,
        }
    }

    /// The state of the connection in this phase.
    pub fn connection_state(self) -> (state: ConnectionState)
        ensures
            state == self.connection_state_spec(),
    {
        match self {
            Phase::Idle => ConnectionState::Connected,
            Phase::Subscribing { .. } => ConnectionState::Connected,
            Phase::Polling => ConnectionState::Connected,
            Phase::Publishing { .. } => ConnectionState::Connected,
            Phase::Reporting => ConnectionState::Connected,
            Phase::Probing => ConnectionState::Disconnected,
            Phase::Backoff { attempt } => ConnectionState::Reconnecting(attempt),
            Phase::Reconnecting { attempt } => ConnectionState::Reconnecting(attempt),
            Phase::Closing { .. } => ConnectionState::ShuttingDown,
            Phase::Unsubscribing { .. } => ConnectionState::ShuttingDown,
            Phase::Disconnecting { .. } => ConnectionState::ShuttingDown,
            Phase::Finished { .. } => ConnectionState::ShuttingDown,
        }
    }

    /// Whether the indices and counters of the phase are in range for a
    /// registry of `topics` topics.
    pub open spec fn fits(self, topics: nat) -> bool {
        match self {
            Phase::Subscribing { index, .. } => index < topics,
            Phase::Publishing { index } => index < topics,
            Phase::Unsubscribing { index, .. } => index < topics,
            Phase::Backoff { attempt } => 1 <= attempt <= MAX_RECONNECT_ATTEMPTS,
            Phase::Reconnecting { attempt } => 1 <= attempt <= MAX_RECONNECT_ATTEMPTS,
            _ => true,
        }
    }
}

/// What the driver reports after it has done what the loop asked for.
#[derive(Debug, Clone, PartialEq, Eq)]
pub enum Event {
    /// The loop is to begin.
    Started,
    /// What was asked for has been done.
    Completed,
    /// The transport failed to do what was asked for.
    Failed,
    /// The answer to a liveness check.
    Liveness { connected: bool },
    /// A poll found that a stop was requested.
    ShutdownRequested,
    /// A poll received a message.
    Delivered { message: Message },
    /// A poll came back with no message and without having waited out
    /// its timeout: the connection may be lost.
    NoMessage,
    /// A poll waited out its timeout.
    TimedOut,
}

/// What the loop asks the driver to do next.
#[derive(Debug, Clone, PartialEq, Eq)]
pub enum Action {
    Subscribe { topic: String, qos: QualityOfService },
    Unsubscribe { topic: String },
    /// Look for a stop request; if there is none, wait for a delivery.
    Poll { timeout_ms: u64 },
    Publish { message: Message },
    /// Make known that the message that came in on `topic` was not
    /// answered.
    Report { topic: String, error: MsgHandlingError },
    CheckConnection,
    Sleep { millis: u64 },
    Reconnect,
    Disconnect,
    /// Leave the loop.
    Exit { reason: ExitReason },
}

/// What an `Action` holds.
pub enum ActionView {
    Subscribe { topic: Seq<char>, qos: QualityOfService },
    Unsubscribe { topic: Seq<char> },
    Poll { timeout_ms: u64 },
    Publish { message: Message },
    Report { topic: Seq<char>, error: MsgHandlingError },
    CheckConnection,
    Sleep { millis: u64 },
    Reconnect,
    Disconnect,
    Exit { reason: ExitReason },
}

impl View for Action {
    type V = ActionView;

    open spec fn view(&self) -> ActionView {
        match *self {
            Action::Subscribe { topic, qos } => ActionView::Subscribe { topic: topic@, qos },
            Action::Unsubscribe { topic } => ActionView::Unsubscribe { topic: topic@ },
            Action::Poll { timeout_ms } => ActionView::Poll { timeout_ms },
            Action::Publish { message } => ActionView::Publish { message },
            Action::Report { topic, error } => ActionView::Report { topic: topic@, error },
            Action::CheckConnection => ActionView::CheckConnection,
            Action::Sleep { millis } => ActionView::Sleep { millis },
            Action::Reconnect => ActionView::Reconnect,
            Action::Disconnect => ActionView::Disconnect,
            Action::Exit { reason } => ActionView::Exit { reason },
        }
    }
}

/// What the loop reacts to: a report of the driver, with a delivery
/// replaced by what became of the message.
pub enum Input {
    Started,
    Completed,
    Failed,
    Liveness { connected: bool },
    ShutdownRequested,
    /// A message came in on `topic`, which is registered at `position`
    /// if anywhere, and handling it gave `outcome`.
    Handled { topic: Seq<char>, position: Option<int>, outcome: Result<Message, MsgHandlingError> },
    NoMessage,
    TimedOut,
}

/// The poll that keeps the loop going.
pub open spec fn poll() -> (Phase, ActionView) {
    (Phase::Polling, ActionView::Poll { timeout_ms: POLL_TIMEOUT_MS })
}

/// The end of the loop.
pub open spec fn finish(reason: ExitReason) -> (Phase, ActionView) {
    (Phase::Finished { reason }, ActionView::Exit { reason })
}

/// The begin of the teardown: whether there is a connection to take
/// down decides how it goes on.
pub open spec fn close(reason: ExitReason) -> (Phase, ActionView) {
    (Phase::Closing { reason }, ActionView::CheckConnection)
}

/// Subscribes the topic at `index`, or polls when every topic has been
/// subscribed.
pub open spec fn subscribe_from(topics: Seq<Seq<char>>, index: int, resumed: bool) -> (
    Phase,
    ActionView,
) {
    if 0 <= index < topics.len() {
        (
            Phase::Subscribing { index: index as usize, resumed },
            ActionView::Subscribe { topic: topics[index], qos: QualityOfService::AtLeastOnce },
        )
    } else {
        poll()
    }
}

/// Unsubscribes the topic at `index`, or disconnects when every topic
/// has been unsubscribed.
pub open spec fn unsubscribe_from(topics: Seq<Seq<char>>, index: int, reason: ExitReason) -> (
    Phase,
    ActionView,
) {
    if 0 <= index < topics.len() {
        (
            Phase::Unsubscribing { index: index as usize, reason },
            ActionView::Unsubscribe { topic: topics[index] },
        )
    } else {
        (Phase::Disconnecting { reason }, ActionView::Disconnect)
    }
}

/// What follows the handling of a message: its reply is published, or
/// the error is reported. A message on a topic without a handler is
/// never answered.
pub open spec fn after_handling(
    topic: Seq<char>,
    position: Option<int>,
    outcome: Result<Message, MsgHandlingError>,
) -> (Phase, ActionView) {
    match (position, outcome) {
        (Some(index), Ok(message)) => (
            Phase::Publishing { index: index as usize },
            ActionView::Publish { message },
        ),
        (Some(_), Err(error)) => (Phase::Reporting, ActionView::Report { topic, error }),
        (None, _) => (
            Phase::Reporting,
            ActionView::Report { topic, error: MsgHandlingError::NoHandlerForTopicError },
        ),
    }
}

/// What follows reconnect attempt number `attempt`: the topics are
/// subscribed again after a success, the next attempt is prepared after
/// a failure, and the loop gives up after the last one.
pub open spec fn after_reconnect(topics: Seq<Seq<char>>, attempt: u32, succeeded: bool) -> (
    Phase,
    ActionView,
) {
    if succeeded {
        subscribe_from(topics, 0, true)
    } else if attempt < MAX_RECONNECT_ATTEMPTS {
        (
            Phase::Backoff { attempt: (attempt + 1) as u32 },
            ActionView::Sleep { millis: RECONNECT_INTERVAL_MS },
        )
    } else {
        close(ExitReason::ReconnectExhausted)
    }
}

/// The dispatch loop as a function: the phase that follows `phase` on
/// `input`, and what the driver is asked to do then.
pub open spec fn react(topics: Seq<Seq<char>>, phase: Phase, input: Input) -> (Phase, ActionView) {
    match (phase, input) {
        (Phase::Idle, Input::Started) => subscribe_from(topics, 0, false),
        (Phase::Subscribing { index, resumed }, Input::Completed) => subscribe_from(
            topics,
            index + 1,
            resumed,
        ),
        (Phase::Subscribing { index, resumed }, Input::Failed) => if resumed {
            close(ExitReason::SubscribeFailed)
        } else {
            finish(ExitReason::SubscribeFailed)
        },
        (Phase::Polling, Input::ShutdownRequested) => close(ExitReason::Shutdown),
        (Phase::Polling, Input::Handled { topic, position, outcome }) => after_handling(
            topic,
            position,
            outcome,
        ),
        (Phase::Polling, Input::NoMessage) => (Phase::Probing, ActionView::CheckConnection),
        (Phase::Polling, Input::TimedOut) => poll(),
        (Phase::Publishing { index }, Input::Completed) => poll(),
        (Phase::Publishing { index }, Input::Failed) => (
            Phase::Reporting,
            ActionView::Report {
                topic: topics[index as int],
                error: MsgHandlingError::PublishError,
            },
        ),
        (Phase::Reporting, Input::Completed) => poll(),
        (Phase::Reporting, Input::Failed) => poll(),
        (Phase::Probing, Input::Liveness { connected }) => if connected {
            poll()
        } else {
            (Phase::Backoff { attempt: 1 }, ActionView::Sleep { millis: RECONNECT_INTERVAL_MS })
        },
        (Phase::Backoff { attempt }, Input::Completed) => (
            Phase::Reconnecting { attempt },
            ActionView::Reconnect,
        ),
        (Phase::Backoff { attempt }, Input::Failed) => (
            Phase::Reconnecting { attempt },
            ActionView::Reconnect,
        ),
        (Phase::Reconnecting { attempt }, Input::Completed) => after_reconnect(
            topics,
            attempt,
            true,
        ),
        (Phase::Reconnecting { attempt }, Input::Failed) => after_reconnect(
            topics,
            attempt,
            false,
        ),
        (Phase::Closing { reason }, Input::Liveness { connected }) => if connected {
            unsubscribe_from(topics, 0, reason)
        } else {
            finish(reason)
        },
        (Phase::Unsubscribing { index, reason }, Input::Completed) => unsubscribe_from(
            topics,
            index + 1,
            reason,
        ),
        (Phase::Unsubscribing { index, reason }, Input::Failed) => unsubscribe_from(
            topics,
            index + 1,
            reason,
        ),
        (Phase::Disconnecting { reason }, Input::Completed) => finish(reason),
        (Phase::Disconnecting { reason }, Input::Failed) => finish(reason),
        (Phase::Finished { reason }, _) => finish(reason),
        _ => finish(ExitReason::UnexpectedEvent),
    }
}

/// The dispatch loop of a responder, without its I/O.
///
/// The driver calls `step` with what happened and does what comes back:
/// first `Event::Started`, then, after each action, the event that tells
/// how the action went, until the action is `Action::Exit`.
pub struct Dispatcher<H> {
    registry: HandlerRegistry<H>,
    phase: Phase,
}

impl<H: Fn(&Message) -> Result<Message, MsgHandlingError>> Dispatcher<H> {
    /// The handlers that the loop dispatches to.
    pub closed spec fn registry(&self) -> HandlerRegistry<H> {
        self.registry
    }

    /// Where the loop stands.
    pub closed spec fn phase(&self) -> Phase {
        self.phase
    }

    /// The topics that the loop subscribes to, in the order in which it
    /// does so.
    pub open spec fn topics(&self) -> Seq<Seq<char>> {
        self.registry().topics()
    }

    /// The registry is well-formed and the phase fits it.
    pub open spec fn wf(&self) -> bool {
        &&& self.registry().wf()
        &&& self.phase().fits(self.topics().len())
    }

    /// What the loop reacts to when the driver reports `event`: the
    /// report itself, but for a delivery, which stands for the handling
    /// of its message with the given outcome.
    pub open spec fn input_for(
        &self,
        event: Event,
        outcome: Result<Message, MsgHandlingError>,
    ) -> Input {
        match event {
            Event::Started => Input::Started,
            Event::Completed => Input::Completed,
            Event::Failed => Input::Failed,
            Event::Liveness { connected } => Input::Liveness { connected },
            Event::ShutdownRequested => Input::ShutdownRequested,
            Event::Delivered { message } => Input::Handled {
                topic: message.topic@,
                position: self.registry().position(message.topic@),
                outcome,
            },
            Event::NoMessage => Input::NoMessage,
            Event::TimedOut => Input::TimedOut,
        }
    }

    /// Whether handling `event` can give `outcome`. This binds the
    /// outcome of a delivery while the loop polls: it is one that
    /// dispatching the message can give. No other event is handled.
    pub open spec fn handles(&self, event: Event, outcome: Result<Message, MsgHandlingError>) -> bool {
        event matches Event::Delivered { message } ==> self.phase() == Phase::Polling
            ==> self.registry().dispatches(message, outcome)
    }

    /// A loop over `registry` that has not begun.
    pub fn new(registry: HandlerRegistry<H>) -> (dispatcher: Self)
        requires
            registry.wf(),
        ensures
            dispatcher.wf(),
            dispatcher.registry() == registry,
            dispatcher.phase() == Phase::Idle,
    {
        Dispatcher { registry, phase: Phase::Idle }
    }

    /// Where the loop stands.
    pub fn current_phase(&self) -> (phase: Phase)
        ensures
            phase == self.phase(),
    {
        self.phase
    }

    /// The handlers that the loop dispatches to.
    pub fn handlers(&self) -> (registry: &HandlerRegistry<H>)
        ensures
            *registry == self.registry(),
    {
        &self.registry
    }

    fn poll(&mut self) -> (action: Action)
        ensures
            final(self).registry() == old(self).registry(),
            (final(self).phase(), action@) == poll(),
    {
        self.phase = Phase::Polling;
        Action::Poll { timeout_ms: POLL_TIMEOUT_MS }
    }

    fn finish(&mut self, reason: ExitReason) -> (action: Action)
        ensures
            final(self).registry() == old(self).registry(),
            (final(self).phase(), action@) == finish(reason),
    {
        self.phase = Phase::Finished { reason };
        Action::Exit { reason }
    }

    fn close(&mut self, reason: ExitReason) -> (action: Action)
        ensures
            final(self).registry() == old(self).registry(),
            (final(self).phase(), action@) == close(reason),
    {
        self.phase = Phase::Closing { reason };
        Action::CheckConnection
    }

    fn subscribe_from(&mut self, index: usize, resumed: bool) -> (action: Action)
        ensures
            final(self).registry() == old(self).registry(),
            (final(self).phase(), action@) == subscribe_from(
                old(self).topics(),
                index as int,
                resumed,
            ),
    {
        if index < self.registry.len() {
            self.phase = Phase::Subscribing { index, resumed };
            Action::Subscribe {
                topic: self.registry.topic(index).clone(),
                qos: QualityOfService::AtLeastOnce,
            }
        } else {
            self.poll()
        }
    }

    fn unsubscribe_from(&mut self, index: usize, reason: ExitReason) -> (action: Action)
        ensures
            final(self).registry() == old(self).registry(),
            (final(self).phase(), action@) == unsubscribe_from(
                old(self).topics(),
                index as int,
                reason,
            ),
    {
        if index < self.registry.len() {
            self.phase = Phase::Unsubscribing { index, reason };
            Action::Unsubscribe { topic: self.registry.topic(index).clone() }
        } else {
            self.phase = Phase::Disconnecting { reason };
            Action::Disconnect
        }
    }

    fn after_reconnect(&mut self, attempt: u32, succeeded: bool) -> (action: Action)
        ensures
            final(self).registry() == old(self).registry(),
            (final(self).phase(), action@) == after_reconnect(
                old(self).topics(),
                attempt,
                succeeded,
            ),
    {
        if succeeded {
            self.subscribe_from(0, true)
        } else if attempt < MAX_RECONNECT_ATTEMPTS {
            self.phase = Phase::Backoff { attempt: attempt + 1 };
            Action::Sleep { millis: RECONNECT_INTERVAL_MS }
        } else {
            self.close(ExitReason::ReconnectExhausted)
        }
    }

    fn handle(&mut self, message: Message) -> (action: Action)
        requires
            old(self).wf(),
        ensures
            final(self).registry() == old(self).registry(),
            exists|outcome: Result<Message, MsgHandlingError>|
                {
                    &&& #[trigger] old(self).registry().dispatches(message, outcome)
                    &&& (final(self).phase(), action@) == after_handling(
                        message.topic@,
                        old(self).registry().position(message.topic@),
                        outcome,
                    )
                },
    {
        match self.registry.find(&message.topic) {
            Some(index) => {
                let outcome = (self.registry.handler(index))(&message);
                assert(self.registry().dispatches(message, outcome));
                match outcome {
                    Ok(reply) => {
                        self.phase = Phase::Publishing { index };
                        Action::Publish { message: reply }
                    },
                    Err(error) => {
                        self.phase = Phase::Reporting;
                        Action::Report { topic: message.topic, error }
                    },
                }
            },
            None => {
                assert(self.registry().dispatches(
                    message,
                    Err(MsgHandlingError::NoHandlerForTopicError),
                ));
                self.phase = Phase::Reporting;
                Action::Report {
                    topic: message.topic,
                    error: MsgHandlingError::NoHandlerForTopicError,
                }
            },
        }
    }

    /// Takes what the driver reports and says what it is to do next.
    ///
    /// The loop goes on as `react` says. A message is handed to the
    /// handler of its topic, once, and only while the loop polls.
    pub fn step(&mut self, event: Event) -> (action: Action)
        requires
            old(self).wf(),
        ensures
            final(self).wf(),
            final(self).registry() == old(self).registry(),
            exists|outcome: Result<Message, MsgHandlingError>|
                {
                    &&& #[trigger] old(self).handles(event, outcome)
                    &&& (final(self).phase(), action@) == react(
                        old(self).topics(),
                        old(self).phase(),
                        old(self).input_for(event, outcome),
                    )
                },
    {
        let ghost refused = Err::<Message, MsgHandlingError>(
            MsgHandlingError::NoHandlerForTopicError,
        );
        proof {
            self.registry.lemma_len_fits();
        }
        match (self.phase, event) {
            (Phase::Polling, Event::Delivered { message }) => {
                let action = self.handle(message);
                proof {
                    let outcome = choose|outcome: Result<Message, MsgHandlingError>|
                        {
                            &&& #[trigger] old(self).registry().dispatches(message, outcome)
                            &&& (self.phase(), action@) == after_handling(
                                message.topic@,
                                old(self).registry().position(message.topic@),
                                outcome,
                            )
                        };
                    assert(old(self).handles(event, outcome));
                }
                action
            },
            (phase, event) => {
                let action = match (phase, &event) {
                    (Phase::Idle, Event::Started) => self.subscribe_from(0, false),
                    (Phase::Subscribing { index, resumed }, Event::Completed) => {
                        self.subscribe_from(index + 1, resumed)
                    },
                    (Phase::Subscribing { resumed, .. }, Event::Failed) => {
                        if resumed {
                            self.close(ExitReason::SubscribeFailed)
                        } else {
                            self.finish(ExitReason::SubscribeFailed)
                        }
                    },
                    (Phase::Polling, Event::ShutdownRequested) => self.close(ExitReason::Shutdown),
                    (Phase::Polling, Event::NoMessage) => {
                        self.phase = Phase::Probing;
                        Action::CheckConnection
                    },
                    (Phase::Polling, Event::TimedOut) => self.poll(),
                    (Phase::Publishing { .. }, Event::Completed) => self.poll(),
                    (Phase::Publishing { index }, Event::Failed) => {
                        self.phase = Phase::Reporting;
                        Action::Report {
                            topic: self.registry.topic(index).clone(),
                            error: MsgHandlingError::PublishError,
                        }
                    },
                    (Phase::Reporting, Event::Completed) => self.poll(),
                    (Phase::Reporting, Event::Failed) => self.poll(),
                    (Phase::Probing, Event::Liveness { connected }) => {
                        if *connected {
                            self.poll()
                        } else {
                            self.phase = Phase::Backoff { attempt: 1 };
                            Action::Sleep { millis: RECONNECT_INTERVAL_MS }
                        }
                    },
                    (Phase::Backoff { attempt }, Event::Completed) => {
                        self.phase = Phase::Reconnecting { attempt };
                        Action::Reconnect
                    },
                    (Phase::Backoff { attempt }, Event::Failed) => {
                        self.phase = Phase::Reconnecting { attempt };
                        Action::Reconnect
                    },
                    (Phase::Reconnecting { attempt }, Event::Completed) => {
                        self.after_reconnect(attempt, true)
                    },
                    (Phase::Reconnecting { attempt }, Event::Failed) => {
                        self.after_reconnect(attempt, false)
                    },
                    (Phase::Closing { reason }, Event::Liveness { connected }) => {
                        if *connected {
                            self.unsubscribe_from(0, reason)
                        } else {
                            self.finish(reason)
                        }
                    },
                    (Phase::Unsubscribing { index, reason }, Event::Completed) => {
                        self.unsubscribe_from(index + 1, reason)
                    },
                    (Phase::Unsubscribing { index, reason }, Event::Failed) => {
                        self.unsubscribe_from(index + 1, reason)
                    },
                    (Phase::Disconnecting { reason }, Event::Completed) => self.finish(reason),
                    (Phase::Disconnecting { reason }, Event::Failed) => self.finish(reason),
                    (Phase::Finished { reason }, _) => self.finish(reason),
                    _ => self.finish(ExitReason::UnexpectedEvent),
                };
                assert(old(self).handles(event, refused));
                action
            },
        }
    }
}

} // verus!
