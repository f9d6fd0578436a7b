use crate::params::{ActorState, Parameter};
use crate::decimal::{
    decimal, decimal_string, has_no_number_char, lemma_decimal_is_number_text,
};
use crate::text::{
    contains_text, lemma_substitution_leaves_no_pattern, lemma_substitution_makes_no_word,
    occurs_in, replace_all, substituted,
};
use vstd::prelude::*;
use vstd::string::*;

verus! {

/// Why a topic could not be rendered: the template lacks the placeholder of a parameter.
#[derive(Clone, Copy, Debug, PartialEq, Eq, Structural)]
pub enum TopicError {
    MissingPlaceholder(Parameter),
}

/// The placeholder that stands for the quality-of-service level in a template: `{qos}`.
pub open spec fn qos_placeholder() -> Seq<char> {
    seq!['{', 'q', 'o', 's', '}']
}

/// The placeholder that stands for the delay in a template: `{delay}`.
pub open spec fn delay_placeholder() -> Seq<char> {
    seq!['{', 'd', 'e', 'l', 'a', 'y', '}']
}

/// Whether `text` holds the placeholder of at least one parameter, so that the topic it
/// names depends on the parameters.
pub open spec fn is_templated(text: Seq<char>) -> bool {
    occurs_in(text, qos_placeholder()) || occurs_in(text, delay_placeholder())
}

/// The topic that `template` names at the given parameters: every `{qos}` gives way to the
/// level, then every `{delay}` to the delay, both written in decimal.
pub open spec fn rendered(template: Seq<char>, qos: int, delay: int) -> Seq<char> {
    substituted(
        substituted(template, qos_placeholder(), decimal(qos)),
        delay_placeholder(),
        decimal(delay),
    )
}

/// What rendering `template` at `state` comes to: the topic, or the first placeholder that
/// the template lacks.
pub open spec fn render_outcome(template: Seq<char>, state: ActorState) -> Result<
    Seq<char>,
    TopicError,
> {
    if !occurs_in(template, qos_placeholder()) {
        Err(TopicError::MissingPlaceholder(Parameter::Qos))
    } else if !occurs_in(template, delay_placeholder()) {
        Err(TopicError::MissingPlaceholder(Parameter::Delay))
    } else {
        Ok(rendered(template, state.current_qos as int, state.current_delay as int))
    }
}

/// The outcome of a rendering with the topic taken as its characters.
pub open spec fn outcome_view(outcome: Result<String, TopicError>) -> Result<
    Seq<char>,
    TopicError,
> {
    match outcome {
        Ok(topic) => Ok(topic@),
        Err(error) => Err(error),
    }
}

/// The text of the quality-of-service placeholder.
pub fn qos_placeholder_text() -> (r: &'static str)
    ensures
        r@ == qos_placeholder(),
{
    proof {
        reveal_strlit("{qos}");
    }
    let r = "{qos}";
    assert(r@ =~= qos_placeholder());
    r
}

/// The text of the delay placeholder.
pub fn delay_placeholder_text() -> (r: &'static str)
    ensures
        r@ == delay_placeholder(),
{
    proof {
        reveal_strlit("{delay}");
    }
    let r = "{delay}";
    assert(r@ =~= delay_placeholder());
    r
}

/// Decides whether the topic that `text` names depends on the parameters.
pub fn has_placeholder(text: &str) -> (r: bool)
    ensures
        r == is_templated(text@),
{
    contains_text(text, qos_placeholder_text()) || contains_text(text, delay_placeholder_text())
}

/// Renders `template` at the parameters in `state`. A template that lacks a placeholder is a
/// defect of the configuration and comes back as an error.
pub fn render_topic(template: &str, state: &ActorState) -> (r: Result<String, TopicError>)
    ensures
        outcome_view(r) == render_outcome(template@, *state),
{
    if !contains_text(template, qos_placeholder_text()) {
        return Err(TopicError::MissingPlaceholder(Parameter::Qos));
    }
    if !contains_text(template, delay_placeholder_text()) {
        return Err(TopicError::MissingPlaceholder(Parameter::Delay));
    }
    let level = decimal_string(state.current_qos);
    let with_level = replace_all(template, qos_placeholder_text(), level.as_str());
    let delay = decimal_string(state.current_delay);
    let topic = replace_all(with_level.as_str(), delay_placeholder_text(), delay.as_str());
    Ok(topic)
}

/// Rendering is repeatable: whenever one template is rendered twice at one state, the two
/// outcomes are the same, character for character.
pub proof fn lemma_rendering_is_repeatable(
    template: Seq<char>,
    state: ActorState,
    first: Result<String, TopicError>,
    second: Result<String, TopicError>,
)
    requires
        outcome_view(first) == render_outcome(template, state),
        outcome_view(second) == render_outcome(template, state),
    ensures
        outcome_view(first) == outcome_view(second),
        first is Ok ==> second is Ok && first->Ok_0@ == second->Ok_0@,
{
}

/// A rendered topic is a plain topic: whatever the template and the parameters, no
/// placeholder is left in it, so that rendering it once more would find nothing to fill in.
pub proof fn lemma_rendered_topic_is_plain(template: Seq<char>, qos: int, delay: int)
    ensures
        !is_templated(rendered(template, qos, delay)),
{
    lemma_decimal_is_number_text(qos);
    lemma_decimal_is_number_text(delay);
    assert(has_no_number_char(qos_placeholder()));
    assert(has_no_number_char(delay_placeholder()));
    let with_level = substituted(template, qos_placeholder(), decimal(qos));
    lemma_substitution_leaves_no_pattern(template, qos_placeholder(), decimal(qos));
    lemma_substitution_makes_no_word(
        with_level,
        delay_placeholder(),
        decimal(delay),
        qos_placeholder(),
    );
    lemma_substitution_leaves_no_pattern(with_level, delay_placeholder(), decimal(delay));
}

} // verus!
