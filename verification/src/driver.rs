use crate::config::{Config, ConfigView};
use crate::fatal::Fatal;
use crate::params::{
    delay_in_range, qos_in_range, ActorState, Applied, ControlMessage, Parameter, RangeError,
    DELAY_LONGEST, DELAY_SHORTEST, QOS_HIGHEST, QOS_LOWEST,
};
use crate::topic::{render_outcome, render_topic, TopicError};
use vstd::prelude::*;

verus! {

/// Where the publishing actor stands.
#[derive(Clone, Copy, Debug, PartialEq, Eq)]
pub enum DriverPhase {
    /// Not started.
    Idle,
    /// Waiting for the broker to take the connection.
    Connecting,
    /// Connected, and waiting for the next control message.
    Awaiting,
    /// In a burst: the message with number `index` is on its way.
    Publishing { index: i32 },
    /// In a burst: message `index` is out, and the delay after it is running.
    Resting { index: i32 },
    /// Done, for good.
    Disconnected,
}

/// What can happen to the publishing actor.
#[derive(Clone, Copy, Debug, PartialEq, Eq)]
pub enum DriverEvent {
    /// The actor was started.
    Started,
    /// The broker took the connection.
    Connected,
    /// The broker could not be reached.
    ConnectFailed,
    /// A control message came in.
    Received(ControlMessage),
    /// The channel is closed: no control message will come any more.
    ChannelClosed,
    /// The broker took the payload message.
    Published,
    /// The broker turned the payload message down.
    PublishFailed,
    /// The delay is over.
    Rested,
}

/// What the publishing actor wants done next.
#[derive(Clone, Debug, PartialEq, Eq)]
pub enum DriverAction {
    /// Connect to the broker.
    Connect,
    /// Report `report`, if there is one, as an error, and then wait for the next control
    /// message.
    Receive { report: Option<RangeError> },
    /// Publish message `index` of the burst to `topic` at level `qos`. Its payload is the
    /// index, joined to the time of sending.
    Publish { topic: String, index: i32, qos: i32 },
    /// Let `millis` milliseconds pass.
    Rest { millis: u64 },
    /// Leave the broker and end.
    Disconnect,
    /// Give up: the run cannot go on.
    Abort(Fatal),
}

/// An action of the publishing actor with the topic taken as its characters.
pub enum DriverActionView {
    Connect,
    Receive { report: Option<RangeError> },
    Publish { topic: Seq<char>, index: i32, qos: i32 },
    Rest { millis: u64 },
    Disconnect,
    Abort(Fatal),
}

impl View for DriverAction {
    type V = DriverActionView;

    open spec fn view(&self) -> DriverActionView {
        match self {
            DriverAction::Connect => DriverActionView::Connect,
            DriverAction::Receive { report } => DriverActionView::Receive { report: *report },
            DriverAction::Publish { topic, index, qos } => DriverActionView::Publish {
                topic: topic@,
                index: *index,
                qos: *qos,
            },
            DriverAction::Rest { millis } => DriverActionView::Rest { millis: *millis },
            DriverAction::Disconnect => DriverActionView::Disconnect,
            DriverAction::Abort(fatal) => DriverActionView::Abort(*fatal),
        }
    }
}

/// The publishing actor under control: it takes control messages, keeps the parameters they
/// set, and sends a burst of payload messages whenever a delay was taken over.
///
/// The actor does nothing by itself. `step` is told what has happened and answers with what
/// is to be done; whoever runs the actor does it and comes back with the result.
#[derive(Clone, Debug, PartialEq, Eq)]
pub struct Driver {
    state: ActorState,
    phase: DriverPhase,
    template: Option<String>,
    topic: String,
    message_quantity: i32,
    max_delay: i32,
}

/// The publishing actor as plain values.
pub struct DriverView {
    /// The parameters in force.
    pub state: ActorState,
    /// Where the actor stands.
    pub phase: DriverPhase,
    /// The topic template of the configuration, if it has one.
    pub template: Option<Seq<char>>,
    /// The topic of the burst that is running, or of the last one.
    pub topic: Seq<char>,
    /// How many messages make up a burst.
    pub message_quantity: i32,
    /// The longest delay that the actor takes over.
    pub max_delay: i32,
}

/// The time to let pass for a delay of `delay` milliseconds.
pub open spec fn rest_millis(delay: i32) -> u64 {
    if delay > 0 {
        delay as u64
    } else {
        0
    }
}

impl DriverView {
    /// The actor before its start, as `config` sets it up: both parameters at their lowest
    /// value, the first publishing topic as the template, and the burst size of `config`.
    pub open spec fn initial(config: ConfigView) -> DriverView {
        DriverView {
            state: ActorState { current_qos: QOS_LOWEST, current_delay: DELAY_SHORTEST },
            phase: DriverPhase::Idle,
            template: if config.publisher_topics.len() > 0 {
                Some(config.publisher_topics[0])
            } else {
                None
            },
            topic: Seq::empty(),
            message_quantity: config.message_quantity,
            max_delay: DELAY_LONGEST,
        }
    }

    /// The actor with another phase.
    pub open spec fn at(self, phase: DriverPhase) -> DriverView {
        DriverView { phase, ..self }
    }

    /// The actor at its end, with the reason to report.
    pub open spec fn abort(self, fatal: Fatal) -> (DriverView, DriverActionView) {
        (self.at(DriverPhase::Disconnected), DriverActionView::Abort(fatal))
    }

    /// The actor waiting for the next control message.
    pub open spec fn await_next(self, report: Option<RangeError>) -> (
        DriverView,
        DriverActionView,
    ) {
        (self.at(DriverPhase::Awaiting), DriverActionView::Receive { report })
    }

    /// The actor sending message `index` of a burst, or waiting again where the burst has
    /// no such message.
    pub open spec fn send_from(self, index: i32) -> (DriverView, DriverActionView) {
        if index < self.message_quantity {
            (
                self.at(DriverPhase::Publishing { index }),
                DriverActionView::Publish {
                    topic: self.topic,
                    index,
                    qos: self.state.current_qos,
                },
            )
        } else {
            self.await_next(None)
        }
    }

    /// The actor at the start of a burst: the topic is rendered from the template at the
    /// parameters in force. Without a template, or with one that lacks a placeholder, the
    /// actor gives up.
    pub open spec fn transmit(self) -> (DriverView, DriverActionView) {
        match self.template {
            None => self.abort(Fatal::MissingTopic),
            Some(template) => match render_outcome(template, self.state) {
                Err(error) => self.abort(Fatal::BadTemplate(error)),
                Ok(topic) => (DriverView { topic, ..self }).send_from(0),
            },
        }
    }

    /// What a control message makes of the waiting actor. A level that is taken over changes
    /// the state and nothing else; a value out of range is reported and skipped; a message
    /// that changes nothing is passed over; a delay that is taken over starts a burst.
    pub open spec fn take(self, message: ControlMessage) -> (DriverView, DriverActionView) {
        let next = DriverView {
            state: self.state.after(message, self.max_delay as int),
            ..self
        };
        match ActorState::verdict(message, self.max_delay) {
            Applied::QosAdopted(_) => next.await_next(None),
            Applied::Rejected(error) => next.await_next(Some(error)),
            Applied::DelayAdopted(_) => next.transmit(),
            Applied::Unchanged => next.await_next(None),
        }
    }

    /// The actor after `event`, and what it wants done.
    pub open spec fn step(self, event: DriverEvent) -> (DriverView, DriverActionView) {
        match (self.phase, event) {
            (DriverPhase::Idle, DriverEvent::Started) => (
                self.at(DriverPhase::Connecting),
                DriverActionView::Connect,
            ),
            (DriverPhase::Connecting, DriverEvent::Connected) => self.await_next(None),
            (DriverPhase::Connecting, DriverEvent::ConnectFailed) => self.abort(
                Fatal::ConnectFailed,
            ),
            (DriverPhase::Awaiting, DriverEvent::Received(message)) => self.take(message),
            (DriverPhase::Awaiting, DriverEvent::ChannelClosed) => (
                self.at(DriverPhase::Disconnected),
                DriverActionView::Disconnect,
            ),
            (DriverPhase::Publishing { index }, DriverEvent::Published) => (
                self.at(DriverPhase::Resting { index }),
                DriverActionView::Rest { millis: rest_millis(self.state.current_delay) },
            ),
            (DriverPhase::Publishing { index }, DriverEvent::PublishFailed) => self.await_next(
                None,
            ),
            (DriverPhase::Resting { index }, DriverEvent::Rested) => if index < i32::MAX {
                self.send_from((index + 1) as i32)
            } else {
                self.await_next(None)
            },
            _ => self.abort(Fatal::OutOfTurn),
        }
    }
}

impl View for Driver {
    type V = DriverView;

    closed spec fn view(&self) -> DriverView {
        DriverView {
            state: self.state,
            phase: self.phase,
            template: match self.template {
                Some(template) => Some(template@),
                None => None,
            },
            topic: self.topic@,
            message_quantity: self.message_quantity,
            max_delay: self.max_delay,
        }
    }
}

impl Driver {
    /// The actor before its start, set up with the first publishing topic of `config` as its
    /// template and with the burst size of `config`.
    pub fn new(config: &Config) -> (r: Driver)
        ensures
            r@ == DriverView::initial(config@),
    {
        let template = if config.publisher_connection.topics.len() > 0 {
            Some(config.publisher_connection.topics[0].clone())
        } else {
            None
        };
        assert(config.publisher_connection.topics@.len() > 0
            ==> config@.publisher_topics[0] == config.publisher_connection.topics@[0]@);
        Driver {
            state: ActorState::new(),
            phase: DriverPhase::Idle,
            template,
            topic: String::new(),
            message_quantity: config.publisher_connection.message_quantity,
            max_delay: DELAY_LONGEST,
        }
    }

    /// The same actor with another upper bound for the delays it takes over.
    pub fn with_max_delay(self, max_delay: i32) -> (r: Driver)
        ensures
            r@ == (DriverView { max_delay, ..self@ }),
    {
        Driver { max_delay, ..self }
    }

    /// The parameters in force.
    pub fn state(&self) -> (r: ActorState)
        ensures
            r == self@.state,
    {
        self.state
    }

    /// Where the actor stands.
    pub fn phase(&self) -> (r: DriverPhase)
        ensures
            r == self@.phase,
    {
        self.phase
    }

    fn abort(&mut self, fatal: Fatal) -> (r: DriverAction)
        ensures
            (final(self)@, r@) == old(self)@.abort(fatal),
    {
        self.phase = DriverPhase::Disconnected;
        DriverAction::Abort(fatal)
    }

    fn await_next(&mut self, report: Option<RangeError>) -> (r: DriverAction)
        ensures
            (final(self)@, r@) == old(self)@.await_next(report),
    {
        self.phase = DriverPhase::Awaiting;
        DriverAction::Receive { report }
    }

    fn send_from(&mut self, index: i32) -> (r: DriverAction)
        ensures
            (final(self)@, r@) == old(self)@.send_from(index),
    {
        if index < self.message_quantity {
            self.phase = DriverPhase::Publishing { index };
            DriverAction::Publish {
                topic: self.topic.clone(),
                index,
                qos: self.state.current_qos,
            }
        } else {
            self.await_next(None)
        }
    }

    fn transmit(&mut self) -> (r: DriverAction)
        ensures
            (final(self)@, r@) == old(self)@.transmit(),
    {
        let rendering = match &self.template {
            None => {
                return self.abort(Fatal::MissingTopic);
            },
            Some(template) => render_topic(template.as_str(), &self.state),
        };
        match rendering {
            Err(error) => self.abort(Fatal::BadTemplate(error)),
            Ok(topic) => {
                self.topic = topic;
                self.send_from(0)
            },
        }
    }

    /// Tells the actor what has happened, and learns what is to be done next.
    pub fn step(&mut self, event: DriverEvent) -> (r: DriverAction)
        ensures
            (final(self)@, r@) == old(self)@.step(event),
            final(self)@.max_delay == old(self)@.max_delay,
            old(self)@.state.in_domain(old(self)@.max_delay as int)
                ==> final(self)@.state.in_domain(old(self)@.max_delay as int),
    {
        match (self.phase, event) {
            (DriverPhase::Idle, DriverEvent::Started) => {
                self.phase = DriverPhase::Connecting;
                DriverAction::Connect
            },
            (DriverPhase::Connecting, DriverEvent::Connected) => self.await_next(None),
            (DriverPhase::Connecting, DriverEvent::ConnectFailed) => self.abort(
                Fatal::ConnectFailed,
            ),
            (DriverPhase::Awaiting, DriverEvent::Received(message)) => {
                match self.state.apply(message, self.max_delay) {
                    Applied::QosAdopted(_) => self.await_next(None),
                    Applied::Rejected(error) => self.await_next(Some(error)),
                    Applied::DelayAdopted(_) => self.transmit(),
                    Applied::Unchanged => self.await_next(None),
                }
            },
            (DriverPhase::Awaiting, DriverEvent::ChannelClosed) => {
                self.phase = DriverPhase::Disconnected;
                DriverAction::Disconnect
            },
            (DriverPhase::Publishing { index }, DriverEvent::Published) => {
                self.phase = DriverPhase::Resting { index };
                let millis: u64 = if self.state.current_delay > 0 {
                    self.state.current_delay as u64
                } else {
                    0
                };
                DriverAction::Rest { millis }
            },
            (DriverPhase::Publishing { index }, DriverEvent::PublishFailed) => self.await_next(
                None,
            ),
            (DriverPhase::Resting { index }, DriverEvent::Rested) => if index < i32::MAX {
                self.send_from(index + 1)
            } else {
                self.await_next(None)
            },
            _ => self.abort(Fatal::OutOfTurn),
        }
    }
}

/// A level in range is taken over at once and sends nothing: the waiting actor keeps
/// waiting, with the new level in force and the delay as it was.
pub proof fn lemma_level_in_range_is_adopted(actor: DriverView, level: i32)
    requires
        actor.phase == DriverPhase::Awaiting,
        qos_in_range(level as int),
    ensures
        actor.step(DriverEvent::Received(ControlMessage { qos: Some(level), delay: None })) == (
            DriverView {
                state: ActorState {
                    current_qos: level,
                    current_delay: actor.state.current_delay,
                },
                ..actor
            },
            DriverActionView::Receive { report: None },
        ),
{
}

/// A level out of range changes nothing, and is handed back to be reported as an error.
pub proof fn lemma_level_out_of_range_is_reported(actor: DriverView, level: i32)
    requires
        actor.phase == DriverPhase::Awaiting,
        !qos_in_range(level as int),
    ensures
        actor.step(DriverEvent::Received(ControlMessage { qos: Some(level), delay: None })) == (
            actor,
            DriverActionView::Receive {
                report: Some(
                    RangeError {
                        parameter: Parameter::Qos,
                        value: level,
                        low: QOS_LOWEST,
                        high: QOS_HIGHEST,
                    },
                ),
            },
        ),
{
}

/// A delay in range is taken over, whatever the actor does next; the level stays as it
/// was.
pub proof fn lemma_delay_in_range_is_adopted(actor: DriverView, delay: i32)
    requires
        actor.phase == DriverPhase::Awaiting,
        delay_in_range(delay as int, actor.max_delay as int),
    ensures
        actor.step(
            DriverEvent::Received(ControlMessage { qos: None, delay: Some(delay) }),
        ).0.state == (ActorState { current_qos: actor.state.current_qos, current_delay: delay }),
{
}

/// A delay out of range changes nothing, and is handed back to be reported as an error.
pub proof fn lemma_delay_out_of_range_is_reported(actor: DriverView, delay: i32)
    requires
        actor.phase == DriverPhase::Awaiting,
        !delay_in_range(delay as int, actor.max_delay as int),
    ensures
        actor.step(DriverEvent::Received(ControlMessage { qos: None, delay: Some(delay) })) == (
            actor,
            DriverActionView::Receive {
                report: Some(
                    RangeError {
                        parameter: Parameter::Delay,
                        value: delay,
                        low: DELAY_SHORTEST,
                        high: actor.max_delay,
                    },
                ),
            },
        ),
{
}

/// A message that carries neither a level nor a delay changes nothing and sends nothing:
/// the waiting actor keeps waiting, in the state it had.
pub proof fn lemma_empty_message_is_passed_over(actor: DriverView)
    requires
        actor.phase == DriverPhase::Awaiting,
    ensures
        actor.step(DriverEvent::Received(ControlMessage { qos: None, delay: None })) == (
            actor,
            DriverActionView::Receive { report: None },
        ),
{
}

/// A channel that closes while the actor waits ends the actor in this one step: it leaves
/// the broker and aborts nothing.
pub proof fn lemma_closed_channel_ends_the_actor(actor: DriverView)
    requires
        actor.phase == DriverPhase::Awaiting,
    ensures
        actor.step(DriverEvent::ChannelClosed) == (
            actor.at(DriverPhase::Disconnected),
            DriverActionView::Disconnect,
        ),
{
}

/// Every message that the actor publishes goes out at the level in force, and the level in
/// force is in range whenever it was in range before.
pub proof fn lemma_publishes_at_the_level_in_force(actor: DriverView, event: DriverEvent)
    requires
        actor.state.in_domain(actor.max_delay as int),
    ensures
        actor.step(event).0.state.in_domain(actor.max_delay as int),
        actor.step(event).1 matches DriverActionView::Publish { qos, .. } ==> qos == actor.step(
            event,
        ).0.state.current_qos && qos_in_range(qos as int),
{
}

/// A burst runs its course: after each message the delay in force is let pass, then the
/// message with the next index goes out to the same topic, and after the last index of the
/// burst the actor waits for the next control message.
pub proof fn lemma_burst_runs_its_course(actor: DriverView, index: i32)
    requires
        actor.phase == (DriverPhase::Publishing { index }),
    ensures
        actor.step(DriverEvent::Published) == (
            actor.at(DriverPhase::Resting { index }),
            DriverActionView::Rest { millis: rest_millis(actor.state.current_delay) },
        ),
        index + 1 < actor.message_quantity ==> actor.step(DriverEvent::Published).0.step(
            DriverEvent::Rested,
        ) == (
            actor.at(DriverPhase::Publishing { index: (index + 1) as i32 }),
            DriverActionView::Publish {
                topic: actor.topic,
                index: (index + 1) as i32,
                qos: actor.state.current_qos,
            },
        ),
        index + 1 >= actor.message_quantity ==> actor.step(DriverEvent::Published).0.step(
            DriverEvent::Rested,
        ) == actor.await_next(None),
{
}

/// One message of a burst as it goes out: the topic, the index and the level.
pub struct Sent {
    pub topic: Seq<char>,
    pub index: int,
    pub qos: i32,
}

impl DriverView {
    /// The messages that the actor sends within its next `steps` steps if the broker takes
    /// every one of them, when `pending` is what the actor has just asked for. The burst is
    /// over as soon as the actor asks for anything but a message or a rest.
    pub open spec fn burst(self, pending: DriverActionView, steps: nat) -> Seq<Sent>
        decreases steps,
    {
        if steps == 0 {
            Seq::empty()
        } else {
            match pending {
                DriverActionView::Publish { topic, index, qos } => seq![
                    Sent { topic, index: index as int, qos },
                ] + self.step(DriverEvent::Published).0.burst(
                    self.step(DriverEvent::Published).1,
                    (steps - 1) as nat,
                ),
                DriverActionView::Rest { .. } => self.step(DriverEvent::Rested).0.burst(
                    self.step(DriverEvent::Rested).1,
                    (steps - 1) as nat,
                ),
                _ => Seq::empty(),
            }
        }
    }

    /// The messages of a whole burst from `index` on: one for each index below the burst
    /// size, in rising order, all to the topic of the burst and at the level in force.
    pub open spec fn rest_of_burst(self, index: int) -> Seq<Sent> {
        Seq::new(
            if index < self.message_quantity {
                (self.message_quantity - index) as nat
            } else {
                0
            },
            |k: int| Sent { topic: self.topic, index: index + k, qos: self.state.current_qos },
        )
    }
}

/// A burst that meets no failure is complete: from `index` on the actor sends one message
/// for each index below the burst size, in rising order and to one topic, and then the
/// burst is over.
pub proof fn lemma_burst_is_complete(actor: DriverView, index: i32, steps: nat)
    requires
        0 <= index,
        steps > 2 * (actor.message_quantity - index),
    ensures
        actor.send_from(index).0.burst(actor.send_from(index).1, steps) == actor.rest_of_burst(
            index as int,
        ),
    decreases actor.message_quantity - index,
{
    let start = actor.send_from(index);
    if index < actor.message_quantity {
        let resting = start.0.step(DriverEvent::Published);
        let next = resting.0.step(DriverEvent::Rested);
        assert(next == actor.send_from((index + 1) as i32));
        assert(start.0.burst(start.1, steps) == seq![
            Sent { topic: actor.topic, index: index as int, qos: actor.state.current_qos },
        ] + resting.0.burst(resting.1, (steps - 1) as nat));
        assert(resting.0.burst(resting.1, (steps - 1) as nat) == next.0.burst(
            next.1,
            (steps - 2) as nat,
        ));
        lemma_burst_is_complete(actor, (index + 1) as i32, (steps - 2) as nat);
        assert(start.0.burst(start.1, steps) =~= actor.rest_of_burst(index as int));
    } else {
        assert(start.0.burst(start.1, steps) =~= actor.rest_of_burst(index as int));
    }
}

/// A delay that is taken over sets a whole burst going: where nothing fails, the waiting
/// actor answers the message with one payload message for each index of a burst, from zero
/// on, all to the topic that its template names at the parameters now in force and at the
/// level in force.
pub proof fn lemma_delay_sets_a_burst_going(
    actor: DriverView,
    delay: i32,
    template: Seq<char>,
    topic: Seq<char>,
    steps: nat,
)
    requires
        actor.phase == DriverPhase::Awaiting,
        delay_in_range(delay as int, actor.max_delay as int),
        actor.template == Some(template),
        render_outcome(
            template,
            ActorState { current_qos: actor.state.current_qos, current_delay: delay },
        ) == Ok::<Seq<char>, TopicError>(topic),
        steps > 2 * actor.message_quantity,
    ensures
        ({
            let answer = actor.step(
                DriverEvent::Received(ControlMessage { qos: None, delay: Some(delay) }),
            );
            answer.0.burst(answer.1, steps) == Seq::new(
                if actor.message_quantity > 0 {
                    actor.message_quantity as nat
                } else {
                    0
                },
                |k: int| Sent { topic, index: k, qos: actor.state.current_qos },
            )
        }),
{
    let ready = DriverView {
        state: ActorState { current_qos: actor.state.current_qos, current_delay: delay },
        topic,
        ..actor
    };
    let answer = actor.step(
        DriverEvent::Received(ControlMessage { qos: None, delay: Some(delay) }),
    );
    assert(answer == ready.send_from(0));
    lemma_burst_is_complete(ready, 0, steps);
    assert(ready.rest_of_burst(0) =~= Seq::new(
        if actor.message_quantity > 0 {
            actor.message_quantity as nat
        } else {
            0
        },
        |k: int| Sent { topic, index: k, qos: actor.state.current_qos },
    ));
}

/// An actor that is done stays done: nothing brings it back.
pub proof fn lemma_done_is_done(actor: DriverView, event: DriverEvent)
    requires
        actor.phase == DriverPhase::Disconnected,
    ensures
        actor.step(event) == (actor, DriverActionView::Abort(Fatal::OutOfTurn)),
{
}

} // verus!
