use crate::fatal::Fatal;
use crate::params::ControlMessage;
use crate::plan::{grid, lemma_grid_order, SweepPlan};
use crate::decimal::{decimal, decimal_string};
use vstd::prelude::*;
use vstd::string::*;

verus! {

/// How long, in milliseconds, the source lets the other actor settle after it has announced
/// a delay.
pub const SETTLE_MILLIS: u64 = 2000;

/// What the source does at one point of the plan, step by step.
#[derive(Clone, Copy, Debug, PartialEq, Eq, Structural)]
pub enum Stage {
    /// Tell the other actor the level. Only the first delay of a level starts here.
    AnnounceQos,
    /// Tell the broker the level.
    PublishQos,
    /// Tell the other actor the delay.
    AnnounceDelay,
    /// Give the other actor time to follow.
    Settle,
    /// Tell the broker the delay.
    PublishDelay,
    /// Let the burst at this point run its course.
    Dwell,
}

/// Where the source stands.
#[derive(Clone, Copy, Debug, PartialEq, Eq)]
pub enum SourcePhase {
    /// Not started.
    Idle,
    /// Waiting for the broker to take the connection.
    Connecting,
    /// At the point of the level at place `level` and the delay at place `delay`, about to
    /// hear how `stage` went.
    At { level: usize, delay: usize, stage: Stage },
    /// Done, for good.
    Disconnected,
}

/// What can happen to the source.
#[derive(Clone, Copy, Debug, PartialEq, Eq, Structural)]
pub enum SourceEvent {
    /// The source was started.
    Started,
    /// The broker took the connection.
    Connected,
    /// The broker could not be reached.
    ConnectFailed,
    /// The channel took the control message.
    Notified,
    /// The channel is closed: the other actor is gone.
    NotifyFailed,
    /// The broker took the message.
    Published,
    /// The broker turned the message down.
    PublishFailed,
    /// The time is over.
    Rested,
}

/// What the source wants done next.
#[derive(Clone, Debug, PartialEq, Eq)]
pub enum SourceAction {
    /// Connect to the broker.
    Connect,
    /// Send the control message to the other actor.
    Notify(ControlMessage),
    /// Publish `payload` to `topic` at level `qos`.
    Publish { topic: String, payload: String, qos: i32 },
    /// Let `millis` milliseconds pass.
    Rest { millis: u64 },
    /// Leave the broker and end.
    Disconnect,
    /// Give up: the run cannot go on.
    Abort(Fatal),
}

/// An action of the source with its texts taken as their characters.
pub enum SourceActionView {
    Connect,
    Notify(ControlMessage),
    Publish { topic: Seq<char>, payload: Seq<char>, qos: i32 },
    Rest { millis: u64 },
    Disconnect,
    Abort(Fatal),
}

impl View for SourceAction {
    type V = SourceActionView;

    open spec fn view(&self) -> SourceActionView {
        match self {
            SourceAction::Connect => SourceActionView::Connect,
            SourceAction::Notify(message) => SourceActionView::Notify(*message),
            SourceAction::Publish { topic, payload, qos } => SourceActionView::Publish {
                topic: topic@,
                payload: payload@,
                qos: *qos,
            },
            SourceAction::Rest { millis } => SourceActionView::Rest { millis: *millis },
            SourceAction::Disconnect => SourceActionView::Disconnect,
            SourceAction::Abort(fatal) => SourceActionView::Abort(*fatal),
        }
    }
}

/// How long, in milliseconds, the source stays at a point of level `qos`: forty seconds for
/// each level up to and including this one.
pub open spec fn dwell_millis(qos: i32) -> u64 {
    if qos >= 0 {
        (40000 * (qos + 1)) as u64
    } else {
        0
    }
}

/// The publishing actor that holds the plan: it walks the grid point by point, tells the
/// other actor over the channel which parameters are in force, and tells the broker.
///
/// The source does nothing by itself. `step` is told what has happened and answers with
/// what is to be done; whoever runs the source does it and comes back with the result.
#[derive(Clone, Debug, PartialEq, Eq)]
pub struct SweepSource {
    plan: SweepPlan,
    phase: SourcePhase,
}

/// The source as plain values.
pub struct SourceView {
    /// The levels of the plan.
    pub levels: Seq<i32>,
    /// The delays of the plan.
    pub delays: Seq<i32>,
    /// Where the source stands.
    pub phase: SourcePhase,
}

impl SourceView {
    /// The source with another phase.
    pub open spec fn at(self, phase: SourcePhase) -> SourceView {
        SourceView { phase, ..self }
    }

    /// The source at its clean end.
    pub open spec fn finish(self) -> (SourceView, SourceActionView) {
        (self.at(SourcePhase::Disconnected), SourceActionView::Disconnect)
    }

    /// What is to be done for `stage` at the point of the level at `level` and the delay at
    /// `delay`.
    pub open spec fn action_at(self, level: int, delay: int, stage: Stage) -> SourceActionView {
        let qos: i32 = self.levels[level];
        let pause: i32 = self.delays[delay];
        match stage {
            Stage::AnnounceQos => SourceActionView::Notify(
                ControlMessage { qos: Some(qos), delay: None },
            ),
            Stage::PublishQos => SourceActionView::Publish {
                topic: "request/qos"@,
                payload: decimal(pause as int),
                qos,
            },
            Stage::AnnounceDelay => SourceActionView::Notify(
                ControlMessage { qos: None, delay: Some(pause) },
            ),
            Stage::Settle => SourceActionView::Rest { millis: SETTLE_MILLIS },
            Stage::PublishDelay => SourceActionView::Publish {
                topic: "request/delay"@,
                payload: decimal(pause as int),
                qos,
            },
            Stage::Dwell => SourceActionView::Rest { millis: dwell_millis(qos) },
        }
    }

    /// The source doing `stage` at a point.
    pub open spec fn doing(self, level: usize, delay: usize, stage: Stage) -> (
        SourceView,
        SourceActionView,
    ) {
        (
            self.at(SourcePhase::At { level, delay, stage }),
            self.action_at(level as int, delay as int, stage),
        )
    }

    /// The source arriving at a point. Past the last level, or in a plan without delays, the
    /// sweep is over. A point with delay zero starts by announcing its level; every other
    /// point starts by announcing its delay.
    pub open spec fn arrive(self, level: usize, delay: usize) -> (SourceView, SourceActionView) {
        if level >= self.levels.len() || delay >= self.delays.len() {
            self.finish()
        } else if self.delays[delay as int] == 0 {
            self.doing(level, delay, Stage::AnnounceQos)
        } else {
            self.doing(level, delay, Stage::AnnounceDelay)
        }
    }

    /// The source going on to the first delay of the next level.
    pub open spec fn next_level(self, level: usize) -> (SourceView, SourceActionView) {
        if level < usize::MAX {
            self.arrive((level + 1) as usize, 0)
        } else {
            self.finish()
        }
    }

    /// The source going on to the next point: the next delay of the level, or the next
    /// level.
    pub open spec fn next_point(self, level: usize, delay: usize) -> (
        SourceView,
        SourceActionView,
    ) {
        if delay + 1 < self.delays.len() {
            self.arrive(level, (delay + 1) as usize)
        } else {
            self.next_level(level)
        }
    }

    /// The source after `event`, and what it wants done. A message that the broker turns
    /// down ends the work on the level; a closed channel ends the sweep.
    pub open spec fn step(self, event: SourceEvent) -> (SourceView, SourceActionView) {
        match (self.phase, event) {
            (SourcePhase::Idle, SourceEvent::Started) => (
                self.at(SourcePhase::Connecting),
                SourceActionView::Connect,
            ),
            (SourcePhase::Connecting, SourceEvent::Connected) => self.arrive(0, 0),
            (SourcePhase::Connecting, SourceEvent::ConnectFailed) => (
                self.at(SourcePhase::Disconnected),
                SourceActionView::Abort(Fatal::ConnectFailed),
            ),
            (SourcePhase::At { level, delay, stage }, _) => if level >= self.levels.len()
                || delay >= self.delays.len() {
                (self.at(SourcePhase::Disconnected), SourceActionView::Abort(Fatal::OutOfTurn))
            } else {
                match (stage, event) {
                    (Stage::AnnounceQos, SourceEvent::Notified) => self.doing(
                        level,
                        delay,
                        Stage::PublishQos,
                    ),
                    (Stage::PublishQos, SourceEvent::Published) => self.doing(
                        level,
                        delay,
                        Stage::AnnounceDelay,
                    ),
                    (Stage::AnnounceDelay, SourceEvent::Notified) => self.doing(
                        level,
                        delay,
                        Stage::Settle,
                    ),
                    (Stage::Settle, SourceEvent::Rested) => self.doing(
                        level,
                        delay,
                        Stage::PublishDelay,
                    ),
                    (Stage::PublishDelay, SourceEvent::Published) => self.doing(
                        level,
                        delay,
                        Stage::Dwell,
                    ),
                    (Stage::Dwell, SourceEvent::Rested) => self.next_point(level, delay),
                    (Stage::AnnounceQos, SourceEvent::NotifyFailed) => self.finish(),
                    (Stage::AnnounceDelay, SourceEvent::NotifyFailed) => self.finish(),
                    (Stage::PublishQos, SourceEvent::PublishFailed) => self.next_level(level),
                    (Stage::PublishDelay, SourceEvent::PublishFailed) => self.next_level(level),
                    _ => (
                        self.at(SourcePhase::Disconnected),
                        SourceActionView::Abort(Fatal::OutOfTurn),
                    ),
                }
            },
            _ => (self.at(SourcePhase::Disconnected), SourceActionView::Abort(Fatal::OutOfTurn)),
        }
    }
}

impl View for SweepSource {
    type V = SourceView;

    closed spec fn view(&self) -> SourceView {
        SourceView { levels: self.plan.levels(), delays: self.plan.delays(), phase: self.phase }
    }
}

impl SweepSource {
    /// The source before its start, with the plan it is to walk.
    pub fn new(plan: SweepPlan) -> (r: SweepSource)
        ensures
            r@.levels == plan.levels(),
            r@.delays == plan.delays(),
            r@.phase == SourcePhase::Idle,
    {
        SweepSource { plan, phase: SourcePhase::Idle }
    }

    /// Where the source stands.
    pub fn phase(&self) -> (r: SourcePhase)
        ensures
            r == self@.phase,
    {
        self.phase
    }

    fn finish(&mut self) -> (r: SourceAction)
        ensures
            (final(self)@, r@) == old(self)@.finish(),
    {
        self.phase = SourcePhase::Disconnected;
        SourceAction::Disconnect
    }

    fn out_of_turn(&mut self) -> (r: SourceAction)
        ensures
            final(self)@ == old(self)@.at(SourcePhase::Disconnected),
            r@ == SourceActionView::Abort(Fatal::OutOfTurn),
    {
        self.phase = SourcePhase::Disconnected;
        SourceAction::Abort(Fatal::OutOfTurn)
    }

    fn doing(&mut self, level: usize, delay: usize, stage: Stage) -> (r: SourceAction)
        requires
            level < old(self)@.levels.len(),
            delay < old(self)@.delays.len(),
        ensures
            (final(self)@, r@) == old(self)@.doing(level, delay, stage),
    {
        let qos: i32 = self.plan.level_at(level);
        let pause: i32 = self.plan.delay_at(delay);
        self.phase = SourcePhase::At { level, delay, stage };
        match stage {
            Stage::AnnounceQos => SourceAction::Notify(ControlMessage::qos(qos)),
            Stage::PublishQos => SourceAction::Publish {
                topic: String::from_str("request/qos"),
                payload: decimal_string(pause),
                qos,
            },
            Stage::AnnounceDelay => SourceAction::Notify(ControlMessage::delay(pause)),
            Stage::Settle => SourceAction::Rest { millis: SETTLE_MILLIS },
            Stage::PublishDelay => SourceAction::Publish {
                topic: String::from_str("request/delay"),
                payload: decimal_string(pause),
                qos,
            },
            Stage::Dwell => {
                let millis: u64 = if qos >= 0 {
                    40000 * (qos as u64 + 1)
                } else {
                    0
                };
                SourceAction::Rest { millis }
            },
        }
    }

    fn arrive(&mut self, level: usize, delay: usize) -> (r: SourceAction)
        ensures
            (final(self)@, r@) == old(self)@.arrive(level, delay),
    {
        if level >= self.plan.level_count() || delay >= self.plan.delay_count() {
            self.finish()
        } else if self.plan.delay_at(delay) == 0 {
            self.doing(level, delay, Stage::AnnounceQos)
        } else {
            self.doing(level, delay, Stage::AnnounceDelay)
        }
    }

    fn next_level(&mut self, level: usize) -> (r: SourceAction)
        ensures
            (final(self)@, r@) == old(self)@.next_level(level),
    {
        if level < usize::MAX {
            self.arrive(level + 1, 0)
        } else {
            self.finish()
        }
    }

    fn next_point(&mut self, level: usize, delay: usize) -> (r: SourceAction)
        requires
            delay < old(self)@.delays.len(),
        ensures
            (final(self)@, r@) == old(self)@.next_point(level, delay),
    {
        let count: usize = self.plan.delay_count();
        if delay + 1 < count {
            self.arrive(level, delay + 1)
        } else {
            self.next_level(level)
        }
    }

    /// Tells the source what has happened, and learns what is to be done next.
    pub fn step(&mut self, event: SourceEvent) -> (r: SourceAction)
        ensures
            (final(self)@, r@) == old(self)@.step(event),
            final(self)@.levels == old(self)@.levels,
            final(self)@.delays == old(self)@.delays,
            r@ matches SourceActionView::Notify(message) ==> message.well_formed(),
    {
        match (self.phase, event) {
            (SourcePhase::Idle, SourceEvent::Started) => {
                self.phase = SourcePhase::Connecting;
                SourceAction::Connect
            },
            (SourcePhase::Connecting, SourceEvent::Connected) => self.arrive(0, 0),
            (SourcePhase::Connecting, SourceEvent::ConnectFailed) => {
                self.phase = SourcePhase::Disconnected;
                SourceAction::Abort(Fatal::ConnectFailed)
            },
            (SourcePhase::At { level, delay, stage }, _) => {
                if level >= self.plan.level_count() || delay >= self.plan.delay_count() {
                    return self.out_of_turn();
                }
                match (stage, event) {
                    (Stage::AnnounceQos, SourceEvent::Notified) => self.doing(
                        level,
                        delay,
                        Stage::PublishQos,
                    ),
                    (Stage::PublishQos, SourceEvent::Published) => self.doing(
                        level,
                        delay,
                        Stage::AnnounceDelay,
                    ),
                    (Stage::AnnounceDelay, SourceEvent::Notified) => self.doing(
                        level,
                        delay,
                        Stage::Settle,
                    ),
                    (Stage::Settle, SourceEvent::Rested) => self.doing(
                        level,
                        delay,
                        Stage::PublishDelay,
                    ),
                    (Stage::PublishDelay, SourceEvent::Published) => self.doing(
                        level,
                        delay,
                        Stage::Dwell,
                    ),
                    (Stage::Dwell, SourceEvent::Rested) => self.next_point(level, delay),
                    (Stage::AnnounceQos, SourceEvent::NotifyFailed) => self.finish(),
                    (Stage::AnnounceDelay, SourceEvent::NotifyFailed) => self.finish(),
                    (Stage::PublishQos, SourceEvent::PublishFailed) => self.next_level(level),
                    (Stage::PublishDelay, SourceEvent::PublishFailed) => self.next_level(level),
                    _ => self.out_of_turn(),
                }
            },
            _ => self.out_of_turn(),
        }
    }
}

/// The source walks the grid in the order of the plan: where it goes on from the point of
/// the level at `level` and the delay at `delay` to another point, that point is the next
/// place of the grid; and it goes on to another point whenever the grid has one.
pub proof fn lemma_next_point_is_next_place(source: SourceView, level: usize, delay: usize)
    requires
        level < source.levels.len() <= usize::MAX,
        delay < source.delays.len() <= usize::MAX,
    ensures
        source.next_point(level, delay).0.phase matches SourcePhase::At {
            level: next_level,
            delay: next_delay,
            stage,
        } ==> {
            &&& next_level < source.levels.len()
            &&& next_delay < source.delays.len()
            &&& next_level * source.delays.len() + next_delay == level * source.delays.len()
                + delay + 1
        },
        level * source.delays.len() + delay + 1 < source.levels.len() * source.delays.len()
            ==> source.next_point(level, delay).0.phase is At,
{
    let width: int = source.delays.len() as int;
    let height: int = source.levels.len() as int;
    assert((level + 1) * width == level * width + width) by (nonlinear_arith);
    if delay + 1 >= width && level + 1 >= height {
        assert((level + 1) * width >= height * width) by (nonlinear_arith)
            requires
                level + 1 >= height,
                width >= 0,
        ;
    }
}

/// At every point the source runs through its stages in turn, and then goes on to the next
/// point: it announces the level where the delay is zero and tells the broker, announces the
/// delay, lets the other actor settle, tells the broker, and dwells.
pub proof fn lemma_point_runs_its_stages(source: SourceView, level: usize, delay: usize)
    requires
        level < source.levels.len(),
        delay < source.delays.len(),
    ensures
        source.arrive(level, delay) == source.doing(
            level,
            delay,
            if source.delays[delay as int] == 0 {
                Stage::AnnounceQos
            } else {
                Stage::AnnounceDelay
            },
        ),
        source.doing(level, delay, Stage::AnnounceQos).0.step(SourceEvent::Notified)
            == source.doing(level, delay, Stage::PublishQos),
        source.doing(level, delay, Stage::PublishQos).0.step(SourceEvent::Published)
            == source.doing(level, delay, Stage::AnnounceDelay),
        source.doing(level, delay, Stage::AnnounceDelay).0.step(SourceEvent::Notified)
            == source.doing(level, delay, Stage::Settle),
        source.doing(level, delay, Stage::Settle).0.step(SourceEvent::Rested) == source.doing(
            level,
            delay,
            Stage::PublishDelay,
        ),
        source.doing(level, delay, Stage::PublishDelay).0.step(SourceEvent::Published)
            == source.doing(level, delay, Stage::Dwell),
        source.doing(level, delay, Stage::Dwell).0.step(SourceEvent::Rested)
            == source.next_point(level, delay),
{
}

/// The notices that the point of level `qos` and delay `pause` calls for: the level where
/// the delay is zero, and the delay.
pub open spec fn notices_at(qos: i32, pause: i32) -> Seq<ControlMessage> {
    if pause == 0 {
        seq![
            ControlMessage { qos: Some(qos), delay: None },
            ControlMessage { qos: None, delay: Some(pause) },
        ]
    } else {
        seq![ControlMessage { qos: None, delay: Some(pause) }]
    }
}

/// The notices that the grid of `levels` and `delays` calls for from place `from` on, place
/// by place.
pub open spec fn notices_from(levels: Seq<i32>, delays: Seq<i32>, from: int) -> Seq<
    ControlMessage,
>
    decreases levels.len() * delays.len() - from,
{
    if from < 0 || from >= levels.len() * delays.len() {
        Seq::empty()
    } else {
        notices_at(grid(levels, delays)[from].qos, grid(levels, delays)[from].delay)
            + notices_from(levels, delays, from + 1)
    }
}

/// What comes of an action when nothing fails; nothing comes of the end of the sweep.
pub open spec fn success_of(action: SourceActionView) -> Option<SourceEvent> {
    match action {
        SourceActionView::Connect => Some(SourceEvent::Connected),
        SourceActionView::Notify(_) => Some(SourceEvent::Notified),
        SourceActionView::Publish { .. } => Some(SourceEvent::Published),
        SourceActionView::Rest { .. } => Some(SourceEvent::Rested),
        SourceActionView::Disconnect => None,
        SourceActionView::Abort(_) => None,
    }
}

impl SourceView {
    /// The notices that the source gives within its next `steps` steps if nothing fails,
    /// when `pending` is what it has just asked for.
    pub open spec fn walk(self, pending: SourceActionView, steps: nat) -> Seq<ControlMessage>
        decreases steps,
    {
        if steps == 0 {
            Seq::empty()
        } else {
            match success_of(pending) {
                None => Seq::empty(),
                Some(event) => {
                    let given = match pending {
                        SourceActionView::Notify(message) => seq![message],
                        _ => Seq::empty(),
                    };
                    given + self.step(event).0.walk(self.step(event).1, (steps - 1) as nat)
                },
            }
        }
    }
}

/// From any point on, a source that meets no failure gives the notices that the rest of
/// the grid calls for, in the order of the grid, and no others.
pub proof fn lemma_walk_from_point(source: SourceView, level: usize, delay: usize, steps: nat)
    requires
        level < source.levels.len() <= usize::MAX,
        delay < source.delays.len() <= usize::MAX,
        steps > 6 * (source.levels.len() * source.delays.len() - (level * source.delays.len()
            + delay)),
    ensures
        source.arrive(level, delay).0.walk(source.arrive(level, delay).1, steps) == notices_from(
            source.levels,
            source.delays,
            level * source.delays.len() + delay,
        ),
    decreases source.levels.len() * source.delays.len() - (level * source.delays.len() + delay),
{
    let width: int = source.delays.len() as int;
    let total: int = (source.levels.len() * source.delays.len()) as int;
    let place: int = level * width + delay;
    lemma_grid_order(source.levels, source.delays, level as int, delay as int);
    lemma_point_runs_its_stages(source, level, delay);
    lemma_next_point_is_next_place(source, level, delay);
    let qos: i32 = source.levels[level as int];
    let pause: i32 = source.delays[delay as int];
    let onward = source.next_point(level, delay);
    let used: nat = if pause == 0 {
        6
    } else {
        4
    };
    // The stages of this point, one by one.
    let announce_delay = source.doing(level, delay, Stage::AnnounceDelay);
    let settle = source.doing(level, delay, Stage::Settle);
    let publish_delay = source.doing(level, delay, Stage::PublishDelay);
    let dwell = source.doing(level, delay, Stage::Dwell);
    let after_dwell: nat = (steps - used) as nat;
    assert(dwell.0.walk(dwell.1, (after_dwell + 1) as nat) == onward.0.walk(
        onward.1,
        after_dwell,
    ));
    assert(publish_delay.0.walk(publish_delay.1, (after_dwell + 2) as nat) == onward.0.walk(
        onward.1,
        after_dwell,
    ));
    assert(settle.0.walk(settle.1, (after_dwell + 3) as nat) == onward.0.walk(
        onward.1,
        after_dwell,
    ));
    assert(announce_delay.0.walk(announce_delay.1, (after_dwell + 4) as nat) == seq![
        ControlMessage { qos: None, delay: Some(pause) },
    ] + onward.0.walk(onward.1, after_dwell));
    if pause == 0 {
        let announce_qos = source.doing(level, delay, Stage::AnnounceQos);
        let publish_qos = source.doing(level, delay, Stage::PublishQos);
        assert(publish_qos.0.walk(publish_qos.1, (after_dwell + 5) as nat)
            == announce_delay.0.walk(announce_delay.1, (after_dwell + 4) as nat));
        assert(announce_qos.0.walk(announce_qos.1, (after_dwell + 6) as nat) == seq![
            ControlMessage { qos: Some(qos), delay: None },
        ] + publish_qos.0.walk(publish_qos.1, (after_dwell + 5) as nat));
    }
    assert(source.arrive(level, delay).0.walk(source.arrive(level, delay).1, steps)
        =~= notices_at(qos, pause) + onward.0.walk(onward.1, after_dwell));
    // What follows this point.
    match onward.0.phase {
        SourcePhase::At { level: next_level, delay: next_delay, stage } => {
            assert(onward == source.arrive(next_level, next_delay));
            assert(after_dwell > 6 * (total - (place + 1))) by (nonlinear_arith)
                requires
                    steps > 6 * (total - place),
                    after_dwell >= steps - 6,
            ;
            lemma_walk_from_point(source, next_level, next_delay, after_dwell);
        },
        _ => {
            assert(place + 1 >= total);
            assert(onward == source.finish());
            assert(onward.0.walk(onward.1, after_dwell) =~= Seq::<ControlMessage>::empty());
            assert(notices_from(source.levels, source.delays, place + 1) =~= Seq::<
                ControlMessage,
            >::empty());
        },
    }
}

/// A source that meets no failure walks the whole plan: from its start to its end it gives
/// the notices that the grid calls for, point by point in the order of the grid, and no
/// others.
pub proof fn lemma_walk_covers_the_plan(source: SourceView, steps: nat)
    requires
        source.phase == SourcePhase::Idle,
        source.levels.len() <= usize::MAX,
        source.delays.len() <= usize::MAX,
        steps > 6 * (source.levels.len() * source.delays.len()) + 1,
    ensures
        source.step(SourceEvent::Started).0.walk(source.step(SourceEvent::Started).1, steps)
            == notices_from(source.levels, source.delays, 0),
{
    let connecting = source.step(SourceEvent::Started);
    let first = connecting.0.step(SourceEvent::Connected);
    assert(connecting.0.walk(connecting.1, steps) =~= first.0.walk(first.1, (steps - 1) as nat));
    assert(first == source.arrive(0, 0));
    if source.levels.len() > 0 && source.delays.len() > 0 {
        lemma_walk_from_point(source, 0, 0, (steps - 1) as nat);
    } else {
        assert(source.levels.len() * source.delays.len() == 0) by (nonlinear_arith)
            requires
                source.levels.len() == 0 || source.delays.len() == 0,
        ;
        assert(first.0.walk(first.1, (steps - 1) as nat) =~= Seq::<ControlMessage>::empty());
    }
}

} // verus!
