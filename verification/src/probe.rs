use crate::config::{Config, ConfigView};
use crate::fatal::Fatal;
use crate::marker::{final_marker, final_marker_for};
use crate::params::{
    ActorState, Applied, ControlMessage, RangeError, DELAY_LONGEST, DELAY_SHORTEST, QOS_LOWEST,
};
use crate::reconnect::ReconnectPolicy;
use crate::decimal::{parse_i32, parsed_i32};
use crate::text::same_text;
use crate::topic::{has_placeholder, is_templated, render_outcome, render_topic};
use vstd::prelude::*;

verus! {

/// The level at which the subscribing actor subscribes: the highest one, so that messages
/// of every level come through.
pub const SUBSCRIPTION_QOS: i32 = 2;

/// How the subscribing actor works.
#[derive(Clone, Copy, Debug, PartialEq, Eq, Structural)]
pub enum ProbeMode {
    /// The topics of the configuration are plain topics. The actor subscribes to them once,
    /// for the whole run, and passes on the parameter changes that the broker reports.
    Static,
    /// The first topic of the configuration is a template. The actor follows the control
    /// messages and subscribes anew, to the rendered topic, for every burst.
    Templated,
}

/// Where the subscribing actor stands.
#[derive(Clone, Copy, Debug, PartialEq, Eq, Structural)]
pub enum ProbePhase {
    /// Not started.
    Idle,
    /// Waiting for the next control message.
    Awaiting,
    /// Waiting for the broker to take the connection.
    Connecting,
    /// Waiting for the broker to take the first subscription of a connection.
    Subscribing,
    /// Waiting for the next message from the broker.
    Consuming,
    /// Waiting for the channel to take a control message.
    Forwarding,
    /// Waiting to hear whether the lost connection came back.
    Reconnecting,
    /// Waiting for the broker to take the subscription again after a reconnect.
    Resubscribing,
    /// Waiting for the connection of one burst to be given up.
    Releasing,
    /// Done, for good.
    Disconnected,
}

/// What can happen to the subscribing actor, apart from a message of the broker.
#[derive(Clone, Copy, Debug, PartialEq, Eq)]
pub enum ProbeEvent {
    /// The actor was started.
    Started,
    /// A control message came in.
    Received(ControlMessage),
    /// The channel is closed: no control message will come any more.
    ChannelClosed,
    /// The broker took the connection.
    Connected,
    /// The broker could not be reached.
    ConnectFailed,
    /// The broker took the subscription.
    Subscribed,
    /// The broker turned the subscription down.
    SubscribeFailed,
    /// Nothing came from the broker for a while; `connected` says whether the connection
    /// is still there.
    Gap { connected: bool },
    /// Nothing will come from the broker any more.
    StreamEnded,
    /// The channel took the control message.
    Forwarded,
    /// The channel is closed: the other actor is gone.
    ForwardFailed,
    /// The connection is back.
    Reconnected,
    /// Every attempt to get the connection back has failed.
    ReconnectFailed,
    /// The connection of the burst was given up.
    Released,
}

/// What the subscribing actor wants done next.
#[derive(Clone, Debug, PartialEq, Eq)]
pub enum ProbeAction {
    /// Report `report`, if there is one, as an error, and then wait for the next control
    /// message.
    Receive { report: Option<RangeError> },
    /// Connect to the broker.
    Connect,
    /// Subscribe to `topics`, each at the level that `qos` holds at the same place.
    Subscribe { topics: Vec<String>, qos: Vec<i32> },
    /// Wait for the next message from the broker.
    Consume,
    /// Send the control message to the other actor.
    Forward(ControlMessage),
    /// Try to get the connection back, as the policy says.
    Reconnect(ReconnectPolicy),
    /// Give up the subscription and the connection of this burst, and go on.
    Release,
    /// Leave the broker and end.
    Disconnect,
    /// Give up: the run cannot go on.
    Abort(Fatal),
}

/// An action of the subscribing actor with its texts taken as their characters.
pub enum ProbeActionView {
    Receive { report: Option<RangeError> },
    Connect,
    Subscribe { topics: Seq<Seq<char>>, qos: Seq<i32> },
    Consume,
    Forward(ControlMessage),
    Reconnect(ReconnectPolicy),
    Release,
    Disconnect,
    Abort(Fatal),
}

impl View for ProbeAction {
    type V = ProbeActionView;

    open spec fn view(&self) -> ProbeActionView {
        match self {
            ProbeAction::Receive { report } => ProbeActionView::Receive { report: *report },
            ProbeAction::Connect => ProbeActionView::Connect,
            ProbeAction::Subscribe { topics, qos } => ProbeActionView::Subscribe {
                topics: topics.deep_view(),
                qos: qos@,
            },
            ProbeAction::Consume => ProbeActionView::Consume,
            ProbeAction::Forward(message) => ProbeActionView::Forward(*message),
            ProbeAction::Reconnect(policy) => ProbeActionView::Reconnect(*policy),
            ProbeAction::Release => ProbeActionView::Release,
            ProbeAction::Disconnect => ProbeActionView::Disconnect,
            ProbeAction::Abort(fatal) => ProbeActionView::Abort(*fatal),
        }
    }
}

/// The subscribing actor: it listens to the broker and, depending on its mode, either
/// passes parameter changes on to the publishing actor or follows the publishing actor from
/// topic to topic.
///
/// The actor does nothing by itself. `step` and `hear` are told what has happened and answer
/// with what is to be done; whoever runs the actor does it and comes back with the result.
#[derive(Clone, Debug, PartialEq, Eq)]
pub struct Probe {
    mode: ProbeMode,
    phase: ProbePhase,
    state: ActorState,
    topics: Vec<String>,
    subscribed: Vec<String>,
    message_quantity: i32,
    max_delay: i32,
    policy: ReconnectPolicy,
}

/// The subscribing actor as plain values.
pub struct ProbeView {
    /// How the actor works.
    pub mode: ProbeMode,
    /// Where the actor stands.
    pub phase: ProbePhase,
    /// The parameters in force.
    pub state: ActorState,
    /// The topics of the configuration.
    pub topics: Seq<Seq<char>>,
    /// The topics that the actor subscribes to.
    pub subscribed: Seq<Seq<char>>,
    /// How many messages make up a burst.
    pub message_quantity: i32,
    /// The longest delay that the actor takes over.
    pub max_delay: i32,
    /// How the actor tries to get a lost connection back.
    pub policy: ReconnectPolicy,
}

impl ProbeView {
    /// The actor before its start, as `config` sets it up. It works in templated mode if the
    /// first subscribing topic holds a placeholder, and in static mode if not.
    pub open spec fn initial(config: ConfigView) -> ProbeView {
        ProbeView {
            mode: if config.subscriber_topics.len() > 0 && is_templated(
                config.subscriber_topics[0],
            ) {
                ProbeMode::Templated
            } else {
                ProbeMode::Static
            },
            phase: ProbePhase::Idle,
            state: ActorState { current_qos: QOS_LOWEST, current_delay: DELAY_SHORTEST },
            topics: config.subscriber_topics,
            subscribed: config.subscriber_topics,
            message_quantity: config.message_quantity,
            max_delay: DELAY_LONGEST,
            policy: ReconnectPolicy {
                retries: config.retries,
                retry_duration: config.retry_duration,
            },
        }
    }

    /// The actor with another phase.
    pub open spec fn at(self, phase: ProbePhase) -> ProbeView {
        ProbeView { phase, ..self }
    }

    /// The actor at its end, with the reason to report.
    pub open spec fn abort(self, fatal: Fatal) -> (ProbeView, ProbeActionView) {
        (self.at(ProbePhase::Disconnected), ProbeActionView::Abort(fatal))
    }

    /// The actor at its clean end.
    pub open spec fn finish(self) -> (ProbeView, ProbeActionView) {
        (self.at(ProbePhase::Disconnected), ProbeActionView::Disconnect)
    }

    /// The actor waiting for the next control message.
    pub open spec fn await_next(self, report: Option<RangeError>) -> (
        ProbeView,
        ProbeActionView,
    ) {
        (self.at(ProbePhase::Awaiting), ProbeActionView::Receive { report })
    }

    /// The actor waiting for the next message from the broker.
    pub open spec fn consume(self) -> (ProbeView, ProbeActionView) {
        (self.at(ProbePhase::Consuming), ProbeActionView::Consume)
    }

    /// The actor asking for its subscription: every topic at the highest level.
    pub open spec fn subscribe(self, phase: ProbePhase) -> (ProbeView, ProbeActionView) {
        (
            self.at(phase),
            ProbeActionView::Subscribe {
                topics: self.subscribed,
                qos: Seq::new(self.subscribed.len(), |i: int| SUBSCRIPTION_QOS),
            },
        )
    }

    /// The actor asking for a connection in order to listen on `subscribed`.
    pub open spec fn connect_for(self, subscribed: Seq<Seq<char>>) -> (
        ProbeView,
        ProbeActionView,
    ) {
        (
            ProbeView { subscribed, phase: ProbePhase::Connecting, ..self },
            ProbeActionView::Connect,
        )
    }

    /// The actor turning to the topic of the next burst: the first topic of the
    /// configuration, rendered at the parameters in force. Without such a topic, or with one
    /// that lacks a placeholder, the actor gives up.
    pub open spec fn follow(self) -> (ProbeView, ProbeActionView) {
        if self.topics.len() == 0 {
            self.abort(Fatal::MissingTopic)
        } else {
            match render_outcome(self.topics[0], self.state) {
                Err(error) => self.abort(Fatal::BadTemplate(error)),
                Ok(topic) => self.connect_for(seq![topic]),
            }
        }
    }

    /// What a control message makes of the waiting actor. A level that is taken over changes
    /// the state and nothing else; a value out of range is reported and skipped; a message
    /// that changes nothing is passed over; a delay that is taken over sends the actor to the
    /// next topic.
    pub open spec fn take(self, message: ControlMessage) -> (ProbeView, ProbeActionView) {
        let next = ProbeView { state: self.state.after(message, self.max_delay as int), ..self };
        match ActorState::verdict(message, self.max_delay) {
            Applied::QosAdopted(_) => next.await_next(None),
            Applied::Rejected(error) => next.await_next(Some(error)),
            Applied::DelayAdopted(_) => next.follow(),
            Applied::Unchanged => next.await_next(None),
        }
    }

    /// What a message of the broker means for the publishing actor. A message on the first
    /// topic of the configuration reports its own level; a message on the second one reports
    /// the delay that its payload writes; any other message reports nothing. The value is
    /// passed on as it came, whatever the number: to judge it is the receiver's part.
    pub open spec fn relay(self, topic: Seq<char>, payload: Seq<char>, qos: i32) -> (
        ProbeView,
        ProbeActionView,
    ) {
        if self.topics.len() == 0 {
            self.abort(Fatal::MissingTopic)
        } else if topic == self.topics[0] {
            (
                self.at(ProbePhase::Forwarding),
                ProbeActionView::Forward(ControlMessage { qos: Some(qos), delay: None }),
            )
        } else if self.topics.len() == 1 {
            self.abort(Fatal::MissingTopic)
        } else if topic == self.topics[1] {
            match parsed_i32(payload) {
                Some(delay) => (
                    self.at(ProbePhase::Forwarding),
                    ProbeActionView::Forward(ControlMessage { qos: None, delay: Some(delay) }),
                ),
                None => self.abort(Fatal::UnreadablePayload),
            }
        } else {
            self.consume()
        }
    }

    /// What the last message of a burst, or any other message of it, makes of the listening
    /// actor.
    pub open spec fn watch(self, payload: Seq<char>) -> (ProbeView, ProbeActionView) {
        match final_marker(payload, self.message_quantity as int) {
            Some(true) => (self.at(ProbePhase::Releasing), ProbeActionView::Release),
            Some(false) => self.consume(),
            None => self.abort(Fatal::UnreadablePayload),
        }
    }

    /// The actor after a message of the broker, and what it wants done.
    pub open spec fn hear(self, topic: Seq<char>, payload: Seq<char>, qos: i32) -> (
        ProbeView,
        ProbeActionView,
    ) {
        if self.phase != ProbePhase::Consuming {
            self.abort(Fatal::OutOfTurn)
        } else {
            match self.mode {
                ProbeMode::Static => self.relay(topic, payload, qos),
                ProbeMode::Templated => self.watch(payload),
            }
        }
    }

    /// The actor after `event`, and what it wants done.
    pub open spec fn step(self, event: ProbeEvent) -> (ProbeView, ProbeActionView) {
        match (self.phase, event) {
            (ProbePhase::Idle, ProbeEvent::Started) => match self.mode {
                ProbeMode::Static => self.connect_for(self.topics),
                ProbeMode::Templated => self.await_next(None),
            },
            (ProbePhase::Awaiting, ProbeEvent::Received(message)) => self.take(message),
            (ProbePhase::Awaiting, ProbeEvent::ChannelClosed) => self.finish(),
            (ProbePhase::Connecting, ProbeEvent::Connected) => self.subscribe(
                ProbePhase::Subscribing,
            ),
            (ProbePhase::Connecting, ProbeEvent::ConnectFailed) => self.abort(
                Fatal::ConnectFailed,
            ),
            (ProbePhase::Subscribing, ProbeEvent::Subscribed) => self.consume(),
            (ProbePhase::Subscribing, ProbeEvent::SubscribeFailed) => self.abort(
                Fatal::SubscribeFailed,
            ),
            (ProbePhase::Consuming, ProbeEvent::Gap { connected }) => if connected {
                self.consume()
            } else {
                (self.at(ProbePhase::Reconnecting), ProbeActionView::Reconnect(self.policy))
            },
            (ProbePhase::Consuming, ProbeEvent::StreamEnded) => match self.mode {
                ProbeMode::Static => self.finish(),
                ProbeMode::Templated => (
                    self.at(ProbePhase::Releasing),
                    ProbeActionView::Release,
                ),
            },
            (ProbePhase::Forwarding, ProbeEvent::Forwarded) => self.consume(),
            (ProbePhase::Forwarding, ProbeEvent::ForwardFailed) => self.finish(),
            (ProbePhase::Reconnecting, ProbeEvent::Reconnected) => self.subscribe(
                ProbePhase::Resubscribing,
            ),
            (ProbePhase::Reconnecting, ProbeEvent::ReconnectFailed) => self.finish(),
            (ProbePhase::Resubscribing, ProbeEvent::Subscribed) => self.consume(),
            (ProbePhase::Resubscribing, ProbeEvent::SubscribeFailed) => self.consume(),
            (ProbePhase::Releasing, ProbeEvent::Released) => self.await_next(None),
            _ => self.abort(Fatal::OutOfTurn),
        }
    }
}

impl View for Probe {
    type V = ProbeView;

    closed spec fn view(&self) -> ProbeView {
        ProbeView {
            mode: self.mode,
            phase: self.phase,
            state: self.state,
            topics: self.topics.deep_view(),
            subscribed: self.subscribed.deep_view(),
            message_quantity: self.message_quantity,
            max_delay: self.max_delay,
            policy: self.policy,
        }
    }
}

/// Copies a list of texts.
pub fn copy_texts(texts: &Vec<String>) -> (r: Vec<String>)
    ensures
        r.deep_view() == texts.deep_view(),
{
    let mut out: Vec<String> = Vec::new();
    let mut at: usize = 0;
    while at < texts.len()
        invariant
            at <= texts.len(),
            out@.len() == at,
            forall|k: int| 0 <= k < at ==> out@[k]@ == texts@[k]@,
        decreases texts.len() - at,
    {
        out.push(texts[at].clone());
        at += 1;
    }
    assert(out.deep_view() =~= texts.deep_view());
    out
}

impl Probe {
    /// The actor before its start, set up from `config`. It works in templated mode if its
    /// first topic holds a placeholder, and in static mode if not.
    pub fn new(config: &Config) -> (r: Probe)
        ensures
            r@ == ProbeView::initial(config@),
    {
        let topics = copy_texts(&config.subscriber_connection.topics);
        let subscribed = copy_texts(&config.subscriber_connection.topics);
        let mode = if topics.len() > 0 && has_placeholder(topics[0].as_str()) {
            ProbeMode::Templated
        } else {
            ProbeMode::Static
        };
        assert(topics.len() > 0 ==> topics.deep_view()[0] == topics@[0]@);
        Probe {
            mode,
            phase: ProbePhase::Idle,
            state: ActorState::new(),
            topics,
            subscribed,
            message_quantity: config.publisher_connection.message_quantity,
            max_delay: DELAY_LONGEST,
            policy: ReconnectPolicy::from_config(config),
        }
    }

    /// The same actor with another upper bound for the delays it takes over.
    pub fn with_max_delay(self, max_delay: i32) -> (r: Probe)
        ensures
            r@ == (ProbeView { max_delay, ..self@ }),
    {
        Probe { max_delay, ..self }
    }

    /// How the actor works.
    pub fn mode(&self) -> (r: ProbeMode)
        ensures
            r == self@.mode,
    {
        self.mode
    }

    /// Where the actor stands.
    pub fn phase(&self) -> (r: ProbePhase)
        ensures
            r == self@.phase,
    {
        self.phase
    }

    /// The parameters in force.
    pub fn state(&self) -> (r: ActorState)
        ensures
            r == self@.state,
    {
        self.state
    }

    fn abort(&mut self, fatal: Fatal) -> (r: ProbeAction)
        ensures
            (final(self)@, r@) == old(self)@.abort(fatal),
    {
        self.phase = ProbePhase::Disconnected;
        ProbeAction::Abort(fatal)
    }

    fn finish(&mut self) -> (r: ProbeAction)
        ensures
            (final(self)@, r@) == old(self)@.finish(),
    {
        self.phase = ProbePhase::Disconnected;
        ProbeAction::Disconnect
    }

    fn await_next(&mut self, report: Option<RangeError>) -> (r: ProbeAction)
        ensures
            (final(self)@, r@) == old(self)@.await_next(report),
    {
        self.phase = ProbePhase::Awaiting;
        ProbeAction::Receive { report }
    }

    fn consume(&mut self) -> (r: ProbeAction)
        ensures
            (final(self)@, r@) == old(self)@.consume(),
    {
        self.phase = ProbePhase::Consuming;
        ProbeAction::Consume
    }

    fn forward(&mut self, message: ControlMessage) -> (r: ProbeAction)
        ensures
            final(self)@ == old(self)@.at(ProbePhase::Forwarding),
            r@ == ProbeActionView::Forward(message),
    {
        self.phase = ProbePhase::Forwarding;
        ProbeAction::Forward(message)
    }

    fn release(&mut self) -> (r: ProbeAction)
        ensures
            final(self)@ == old(self)@.at(ProbePhase::Releasing),
            r@ == ProbeActionView::Release,
    {
        self.phase = ProbePhase::Releasing;
        ProbeAction::Release
    }

    fn subscribe(&mut self, phase: ProbePhase) -> (r: ProbeAction)
        ensures
            (final(self)@, r@) == old(self)@.subscribe(phase),
    {
        self.phase = phase;
        let topics = copy_texts(&self.subscribed);
        let mut qos: Vec<i32> = Vec::new();
        while qos.len() < topics.len()
            invariant
                qos@.len() <= topics@.len(),
                forall|k: int| 0 <= k < qos@.len() ==> qos@[k] == SUBSCRIPTION_QOS,
            decreases topics@.len() - qos@.len(),
        {
            qos.push(SUBSCRIPTION_QOS);
        }
        assert(topics.deep_view().len() == topics@.len());
        assert(qos@ =~= Seq::new(self@.subscribed.len(), |i: int| SUBSCRIPTION_QOS));
        ProbeAction::Subscribe { topics, qos }
    }

    fn connect_for(&mut self, subscribed: Vec<String>) -> (r: ProbeAction)
        ensures
            (final(self)@, r@) == old(self)@.connect_for(subscribed.deep_view()),
    {
        self.subscribed = subscribed;
        self.phase = ProbePhase::Connecting;
        ProbeAction::Connect
    }

    fn follow(&mut self) -> (r: ProbeAction)
        ensures
            (final(self)@, r@) == old(self)@.follow(),
    {
        if self.topics.len() == 0 {
            return self.abort(Fatal::MissingTopic);
        }
        assert(self.topics.deep_view()[0] == self.topics@[0]@);
        match render_topic(self.topics[0].as_str(), &self.state) {
            Err(error) => self.abort(Fatal::BadTemplate(error)),
            Ok(topic) => {
                let mut subscribed: Vec<String> = Vec::new();
                subscribed.push(topic);
                assert(subscribed.deep_view() =~= seq![topic@]);
                self.connect_for(subscribed)
            },
        }
    }

    fn relay(&mut self, topic: &str, payload: &str, qos: i32) -> (r: ProbeAction)
        ensures
            (final(self)@, r@) == old(self)@.relay(topic@, payload@, qos),
    {
        if self.topics.len() == 0 {
            return self.abort(Fatal::MissingTopic);
        }
        assert(self.topics.deep_view()[0] == self.topics@[0]@);
        if same_text(topic, self.topics[0].as_str()) {
            return self.forward(ControlMessage::qos(qos));
        }
        if self.topics.len() == 1 {
            return self.abort(Fatal::MissingTopic);
        }
        assert(self.topics.deep_view()[1] == self.topics@[1]@);
        if same_text(topic, self.topics[1].as_str()) {
            match parse_i32(payload) {
                Some(delay) => self.forward(ControlMessage::delay(delay)),
                None => self.abort(Fatal::UnreadablePayload),
            }
        } else {
            self.consume()
        }
    }

    /// Tells the actor that the broker delivered a message, and learns what is to be done
    /// next.
    pub fn hear(&mut self, topic: &str, payload: &str, qos: i32) -> (r: ProbeAction)
        ensures
            (final(self)@, r@) == old(self)@.hear(topic@, payload@, qos),
            final(self)@.state == old(self)@.state,
            r@ matches ProbeActionView::Forward(message) ==> message.well_formed(),
    {
        match self.phase {
            ProbePhase::Consuming => {},
            _ => {
                return self.abort(Fatal::OutOfTurn);
            },
        }
        match self.mode {
            ProbeMode::Static => self.relay(topic, payload, qos),
            ProbeMode::Templated => match final_marker_for(payload, self.message_quantity) {
                Some(true) => self.release(),
                Some(false) => self.consume(),
                None => self.abort(Fatal::UnreadablePayload),
            },
        }
    }

    /// Tells the actor what has happened, and learns what is to be done next.
    pub fn step(&mut self, event: ProbeEvent) -> (r: ProbeAction)
        ensures
            (final(self)@, r@) == old(self)@.step(event),
            r@ matches ProbeActionView::Forward(message) ==> message.well_formed(),
            final(self)@.max_delay == old(self)@.max_delay,
            old(self)@.state.in_domain(old(self)@.max_delay as int)
                ==> final(self)@.state.in_domain(old(self)@.max_delay as int),
    {
        match (self.phase, event) {
            (ProbePhase::Idle, ProbeEvent::Started) => match self.mode {
                ProbeMode::Static => {
                    let subscribed = copy_texts(&self.topics);
                    self.connect_for(subscribed)
                },
                ProbeMode::Templated => self.await_next(None),
            },
            (ProbePhase::Awaiting, ProbeEvent::Received(message)) => {
                match self.state.apply(message, self.max_delay) {
                    Applied::QosAdopted(_) => self.await_next(None),
                    Applied::Rejected(error) => self.await_next(Some(error)),
                    Applied::DelayAdopted(_) => self.follow(),
                    Applied::Unchanged => self.await_next(None),
                }
            },
            (ProbePhase::Awaiting, ProbeEvent::ChannelClosed) => self.finish(),
            (ProbePhase::Connecting, ProbeEvent::Connected) => self.subscribe(
                ProbePhase::Subscribing,
            ),
            (ProbePhase::Connecting, ProbeEvent::ConnectFailed) => self.abort(
                Fatal::ConnectFailed,
            ),
            (ProbePhase::Subscribing, ProbeEvent::Subscribed) => self.consume(),
            (ProbePhase::Subscribing, ProbeEvent::SubscribeFailed) => self.abort(
                Fatal::SubscribeFailed,
            ),
            (ProbePhase::Consuming, ProbeEvent::Gap { connected }) => if connected {
                self.consume()
            } else {
                self.phase = ProbePhase::Reconnecting;
                ProbeAction::Reconnect(self.policy)
            },
            (ProbePhase::Consuming, ProbeEvent::StreamEnded) => match self.mode {
                ProbeMode::Static => self.finish(),
                ProbeMode::Templated => self.release(),
            },
            (ProbePhase::Forwarding, ProbeEvent::Forwarded) => self.consume(),
            (ProbePhase::Forwarding, ProbeEvent::ForwardFailed) => self.finish(),
            (ProbePhase::Reconnecting, ProbeEvent::Reconnected) => self.subscribe(
                ProbePhase::Resubscribing,
            ),
            (ProbePhase::Reconnecting, ProbeEvent::ReconnectFailed) => self.finish(),
            (ProbePhase::Resubscribing, ProbeEvent::Subscribed) => self.consume(),
            (ProbePhase::Resubscribing, ProbeEvent::SubscribeFailed) => self.consume(),
            (ProbePhase::Releasing, ProbeEvent::Released) => self.await_next(None),
            _ => self.abort(Fatal::OutOfTurn),
        }
    }
}

} // verus!
