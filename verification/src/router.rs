//! The event loop as a state machine: what each bus event does to the
//! router and which actions it owes.

use crate::dispatch::{Action, Effect, effects, handle_events, routed};
use crate::message::{BusMessage, Message, MessageKind, MessageShapeError};
use crate::rule::{Rule, RuleSet};
use vstd::prelude::*;

verus! {

/// Where the router stands.
#[derive(Clone, Copy, Debug, PartialEq, Eq, Structural)]
pub enum RouterState {
    /// Not subscribed yet.
    Idle,
    /// Subscribed and taking messages.
    Listening,
    /// The stream ended or a fatal error occurred; nothing more is taken.
    Terminated,
}

/// Why the router stopped.
#[derive(Clone, Copy, Debug, PartialEq, Eq, Structural)]
pub enum FatalError {
    /// The connection or the subscription could not be established.
    ConnectionFailed,
    /// The stream yielded no further message.
    StreamEnded,
    /// Taking the next message failed.
    StreamError,
    /// A signal came without a field every signal must carry.
    MessageShape(MessageShapeError),
}

impl FatalError {
    /// The message of the error.
    pub open spec fn message_text(self) -> Seq<char> {
        match self {
            FatalError::ConnectionFailed => "could not connect to the bus or subscribe to it"@,
            FatalError::StreamEnded => "the bus closed the stream of messages"@,
            FatalError::StreamError => "the next message could not be taken from the bus"@,
            FatalError::MessageShape(MessageShapeError::MissingPath) => {
                "a signal came without an object path"@
            },
            FatalError::MessageShape(MessageShapeError::MissingMember) => {
                "a signal came without a member name"@
            },
        }
    }

    /// Renders the error for the user. See [`FatalError::message_text`].
    pub fn message(&self) -> (text: String)
        ensures
            text@ == self.message_text(),
    {
        String::from_str(
            match self {
                FatalError::ConnectionFailed => "could not connect to the bus or subscribe to it",
                FatalError::StreamEnded => "the bus closed the stream of messages",
                FatalError::StreamError => "the next message could not be taken from the bus",
                FatalError::MessageShape(MessageShapeError::MissingPath) => {
                    "a signal came without an object path"
                },
                FatalError::MessageShape(MessageShapeError::MissingMember) => {
                    "a signal came without a member name"
                },
            },
        )
    }
}

/// What the bus side reports to the router.
#[derive(Debug)]
pub enum BusEvent {
    /// The connection stands and all signals are subscribed to.
    Subscribed,
    /// The next message of the stream.
    Message(BusMessage),
    /// The stream has ended.
    Closed,
    /// Connecting, subscribing or taking a message failed.
    Failed,
}

/// What the caller owes after a step.
#[derive(Debug)]
pub enum Outcome {
    /// Perform these actions in their order (there may be none), then hand
    /// in the next event.
    Dispatch(Vec<Action>),
    /// Stop with this error.
    Fatal(FatalError),
}

/// A bus event with every text as a sequence of characters.
pub enum Event {
    Subscribed,
    Message(Message),
    Closed,
    Failed,
}

/// An outcome with every text as a sequence of characters.
pub enum Verdict {
    Dispatch(Seq<Effect>),
    Fatal(FatalError),
}

impl View for BusEvent {
    type V = Event;

    open spec fn view(&self) -> Event {
        match *self {
            BusEvent::Subscribed => Event::Subscribed,
            BusEvent::Message(m) => Event::Message(m@),
            BusEvent::Closed => Event::Closed,
            BusEvent::Failed => Event::Failed,
        }
    }
}

impl View for Outcome {
    type V = Verdict;

    open spec fn view(&self) -> Verdict {
        match *self {
            Outcome::Dispatch(actions) => Verdict::Dispatch(effects(actions@)),
            Outcome::Fatal(e) => Verdict::Fatal(e),
        }
    }
}

/// The verdict that owes nothing.
pub open spec fn nothing() -> Verdict {
    Verdict::Dispatch(Seq::empty())
}

/// The state after an event.
///
/// Before the subscription only its success or failure counts; a message
/// that arrives then is left alone. While listening each message is routed,
/// and the end of the stream, a failure to take a message or a misshapen
/// signal terminates the router. Once terminated it stays so.
pub open spec fn next_state(state: RouterState, event: Event) -> RouterState {
    match state {
        RouterState::Idle => match event {
            Event::Subscribed => RouterState::Listening,
            Event::Message(_) => RouterState::Idle,
            Event::Closed | Event::Failed => RouterState::Terminated,
        },
        RouterState::Listening => match event {
            Event::Subscribed => RouterState::Listening,
            Event::Message(m) => if crate::message::normalized(m) is Ok {
                RouterState::Listening
            } else {
                RouterState::Terminated
            },
            Event::Closed | Event::Failed => RouterState::Terminated,
        },
        RouterState::Terminated => RouterState::Terminated,
    }
}

/// What an event owes in a state.
pub open spec fn verdict(state: RouterState, rules: Seq<Rule>, event: Event) -> Verdict {
    match state {
        RouterState::Idle => match event {
            Event::Closed | Event::Failed => Verdict::Fatal(FatalError::ConnectionFailed),
            _ => nothing(),
        },
        RouterState::Listening => match event {
            Event::Subscribed => nothing(),
            Event::Message(m) => match routed(rules, m) {
                Ok(plan) => Verdict::Dispatch(plan),
                Err(e) => Verdict::Fatal(FatalError::MessageShape(e)),
            },
            Event::Closed => Verdict::Fatal(FatalError::StreamEnded),
            Event::Failed => Verdict::Fatal(FatalError::StreamError),
        },
        RouterState::Terminated => nothing(),
    }
}

fn owe_nothing() -> (outcome: Outcome)
    ensures
        outcome@ == nothing(),
{
    let actions: Vec<Action> = Vec::new();
    assert(effects(actions@) =~= Seq::<Effect>::empty());
    Outcome::Dispatch(actions)
}

/// Takes one event in one state. See [`next_state`] and [`verdict`].
pub fn step(state: RouterState, rules: &RuleSet, event: &BusEvent) -> (r: (RouterState, Outcome))
    ensures
        r.0 == next_state(state, event@),
        r.1@ == verdict(state, rules@, event@),
{
    match state {
        RouterState::Idle => match event {
            BusEvent::Subscribed => (RouterState::Listening, owe_nothing()),
            BusEvent::Message(_) => (RouterState::Idle, owe_nothing()),
            BusEvent::Closed => (
                RouterState::Terminated,
                Outcome::Fatal(FatalError::ConnectionFailed),
            ),
            BusEvent::Failed => (
                RouterState::Terminated,
                Outcome::Fatal(FatalError::ConnectionFailed),
            ),
        },
        RouterState::Listening => match event {
            BusEvent::Subscribed => (RouterState::Listening, owe_nothing()),
            BusEvent::Message(m) => match handle_events(rules, m) {
                Ok(plan) => (RouterState::Listening, Outcome::Dispatch(plan)),
                Err(e) => (RouterState::Terminated, Outcome::Fatal(FatalError::MessageShape(e))),
            },
            BusEvent::Closed => (RouterState::Terminated, Outcome::Fatal(FatalError::StreamEnded)),
            BusEvent::Failed => (RouterState::Terminated, Outcome::Fatal(FatalError::StreamError)),
        },
        RouterState::Terminated => (RouterState::Terminated, owe_nothing()),
    }
}

/// A router: the state it stands in and the rules it owns. The rules are
/// fixed when the router is made.
#[derive(Debug)]
pub struct Router {
    state: RouterState,
    rules: RuleSet,
}

/// What a router is: its state and its rules.
pub struct RouterView {
    pub state: RouterState,
    pub rules: Seq<Rule>,
}

impl View for Router {
    type V = RouterView;

    closed spec fn view(&self) -> RouterView {
        RouterView { state: self.state, rules: self.rules@ }
    }
}

impl Router {
    /// An idle router that owns the rules.
    pub fn new(rules: RuleSet) -> (router: Router)
        ensures
            router@ == (RouterView { state: RouterState::Idle, rules: rules@ }),
    {
        Router { state: RouterState::Idle, rules }
    }

    /// The state the router stands in.
    pub fn state(&self) -> (state: RouterState)
        ensures
            state == self@.state,
    {
        self.state
    }

    /// The rules the router owns.
    pub fn rules(&self) -> (rules: &RuleSet)
        ensures
            rules@ == self@.rules,
    {
        &self.rules
    }

    /// Takes one event: moves to the next state, keeps the rules as they
    /// are, and says what is owed. See [`next_state`] and [`verdict`].
    pub fn handle(&mut self, event: &BusEvent) -> (outcome: Outcome)
        ensures
            final(self)@.state == next_state(old(self)@.state, event@),
            final(self)@.rules == old(self)@.rules,
            outcome@ == verdict(old(self)@.state, old(self)@.rules, event@),
    {
        let (next, outcome) = step(self.state, &self.rules, event);
        self.state = next;
        outcome
    }
}

/// The state after a run of events, taken one after another.
pub open spec fn state_after(state: RouterState, events: Seq<Event>) -> RouterState
    decreases events.len(),
{
    if events.len() == 0 {
        state
    } else {
        next_state(state_after(state, events.drop_last()), events.last())
    }
}

/// A terminated router stays terminated whatever events follow.
pub proof fn lemma_terminated_is_final(events: Seq<Event>)
    ensures
        state_after(RouterState::Terminated, events) == RouterState::Terminated,
    decreases events.len(),
{
    if events.len() > 0 {
        lemma_terminated_is_final(events.drop_last());
    }
}

/// A router never returns to idle: after any run of events that starts
/// with the subscription it is listening or terminated.
pub proof fn lemma_subscription_happens_once(events: Seq<Event>)
    requires
        events.len() > 0,
        events[0] == Event::Subscribed,
    ensures
        state_after(RouterState::Idle, events) != RouterState::Idle,
    decreases events.len(),
{
    if events.len() == 1 {
        reveal_with_fuel(state_after, 2);
    } else {
        lemma_subscription_happens_once(events.drop_last());
    }
}

/// What to do once the configuration text was read.
#[derive(Clone, Copy, Debug, PartialEq, Eq, Structural)]
pub enum Startup {
    /// The configuration is empty: leave at once without error and without
    /// touching the bus.
    Exit,
    /// Load the rules, then connect and subscribe.
    Load,
}

/// Decides the start from the configuration text: an empty text ends the
/// program, any other is to be loaded.
pub fn startup(config: &str) -> (s: Startup)
    ensures
        s == (if config@.len() == 0 {
            Startup::Exit
        } else {
            Startup::Load
        }),
{
    if config.is_empty() {
        Startup::Exit
    } else {
        Startup::Load
    }
}

/// In no state does a message that is no signal owe an action or change
/// the state, whatever the rules are.
pub proof fn lemma_non_signal_changes_nothing(state: RouterState, rules: Seq<Rule>, msg: Message)
    requires
        msg.kind != MessageKind::Signal,
    ensures
        verdict(state, rules, Event::Message(msg)) == nothing(),
        next_state(state, Event::Message(msg)) == state,
{
}

/// Only the subscription leads from idle to listening, and nothing leads
/// out of the terminated state.
pub proof fn lemma_state_order(state: RouterState, event: Event)
    ensures
        state == RouterState::Idle && next_state(state, event) == RouterState::Listening
            ==> event == Event::Subscribed,
        state == RouterState::Terminated ==> next_state(state, event) == RouterState::Terminated,
        state == RouterState::Listening ==> next_state(state, event) != RouterState::Idle,
{
}

/// While the router listens, every well-shaped message keeps it listening:
/// what became of earlier actions plays no part in the next step.
pub proof fn lemma_listening_continues(rules: Seq<Rule>, msg: Message)
    requires
        crate::message::normalized(msg) is Ok,
    ensures
        next_state(RouterState::Listening, Event::Message(msg)) == RouterState::Listening,
        verdict(RouterState::Listening, rules, Event::Message(msg)) is Dispatch,
{
}

} // verus!
