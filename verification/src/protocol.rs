use crate::decimal::lemma_decimal_reads_back;
use crate::driver::DriverView;
use crate::params::{ActorState, ControlMessage};
use crate::probe::{ProbeActionView, ProbeMode, ProbePhase, ProbeView};
use crate::source::{SourceActionView, SourceView, Stage};
use crate::topic::{is_templated, lemma_rendered_topic_is_plain, render_outcome};
use vstd::prelude::*;

verus! {

/// The topics on which the source tells the broker of a new level and of a new delay.
pub open spec fn request_topics() -> Seq<Seq<char>> {
    seq!["request/qos"@, "request/delay"@]
}

/// What the source publishes as a new delay, a subscribing actor that listens on the request
/// topics reads back as that delay: it passes on the very notice that the source gave its
/// own partner.
pub proof fn lemma_delay_request_is_understood(
    source: SourceView,
    level: int,
    delay: int,
    probe: ProbeView,
)
    requires
        0 <= level < source.levels.len(),
        0 <= delay < source.delays.len(),
        probe.mode == ProbeMode::Static,
        probe.phase == ProbePhase::Consuming,
        probe.topics == request_topics(),
    ensures
        source.action_at(level, delay, Stage::PublishDelay) matches SourceActionView::Publish {
            topic,
            payload,
            qos,
        } && probe.hear(topic, payload, qos) == (
            probe.at(ProbePhase::Forwarding),
            ProbeActionView::Forward(
                ControlMessage { qos: None, delay: Some(source.delays[delay]) },
            ),
        ),
        source.action_at(level, delay, Stage::AnnounceDelay) == SourceActionView::Notify(
            ControlMessage { qos: None, delay: Some(source.delays[delay]) },
        ),
{
    reveal_strlit("request/qos");
    reveal_strlit("request/delay");
    lemma_decimal_reads_back(source.delays[delay]);
    assert("request/qos"@.len() != "request/delay"@.len());
}

/// What the source publishes as a new level, a subscribing actor that listens on the request
/// topics passes on as the level at which the message came: the very notice that the source
/// gave its own partner.
pub proof fn lemma_level_request_is_understood(
    source: SourceView,
    level: int,
    delay: int,
    probe: ProbeView,
)
    requires
        0 <= level < source.levels.len(),
        0 <= delay < source.delays.len(),
        probe.mode == ProbeMode::Static,
        probe.phase == ProbePhase::Consuming,
        probe.topics == request_topics(),
    ensures
        source.action_at(level, delay, Stage::PublishQos) matches SourceActionView::Publish {
            topic,
            payload,
            qos,
        } && probe.hear(topic, payload, qos) == (
            probe.at(ProbePhase::Forwarding),
            ProbeActionView::Forward(
                ControlMessage { qos: Some(source.levels[level]), delay: None },
            ),
        ),
        source.action_at(level, delay, Stage::AnnounceQos) == SourceActionView::Notify(
            ControlMessage { qos: Some(source.levels[level]), delay: None },
        ),
{
}

/// Every control message that a subscribing actor passes on carries exactly one value.
pub proof fn lemma_forwarded_message_is_well_formed(
    probe: ProbeView,
    topic: Seq<char>,
    payload: Seq<char>,
    qos: i32,
)
    ensures
        probe.hear(topic, payload, qos).1 matches ProbeActionView::Forward(message)
            ==> message.well_formed(),
{
}

/// A publishing actor and a subscribing actor that hold the same template and the same
/// parameters meet on the same topic, and that topic is a plain one.
pub proof fn lemma_actors_meet_on_one_topic(driver: DriverView, probe: ProbeView)
    requires
        probe.topics.len() > 0,
        driver.template == Some(probe.topics[0]),
        driver.state == probe.state,
        render_outcome(probe.topics[0], probe.state) is Ok,
    ensures
        driver.transmit().0.topic == probe.follow().0.subscribed[0],
        probe.follow().0.subscribed.len() == 1,
        !is_templated(probe.follow().0.subscribed[0]),
{
    let state: ActorState = probe.state;
    lemma_rendered_topic_is_plain(
        probe.topics[0],
        state.current_qos as int,
        state.current_delay as int,
    );
}

} // verus!
