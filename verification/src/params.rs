use crate::decimal::{decimal, decimal_string};
use vstd::prelude::*;
use vstd::string::*;

verus! {

/// The lowest quality-of-service level.
pub const QOS_LOWEST: i32 = 0;

/// The highest quality-of-service level.
pub const QOS_HIGHEST: i32 = 2;

/// The shortest delay between two payload messages.
pub const DELAY_SHORTEST: i32 = 0;

/// The longest delay that the standard sweep exercises, and the default upper bound of the
/// delay range.
pub const DELAY_LONGEST: i32 = 500;

/// The value that stands for "unchanged" where a control message travels as a pair of
/// plain integers.
pub const UNCHANGED: i32 = -1;

/// The parameter that a control message may change.
#[derive(Clone, Copy, Debug, PartialEq, Eq, Structural)]
pub enum Parameter {
    Qos,
    Delay,
}

/// A value that was offered for a parameter and lies outside the parameter's range.
#[derive(Clone, Copy, Debug, PartialEq, Eq, Structural)]
pub struct RangeError {
    pub parameter: Parameter,
    pub value: i32,
    pub low: i32,
    pub high: i32,
}

/// A notice from the actor that holds the sweep's parameters to the other one. Each field is
/// either a new value or `None` for "unchanged".
#[derive(Clone, Copy, Debug, PartialEq, Eq)]
pub struct ControlMessage {
    pub qos: Option<i32>,
    pub delay: Option<i32>,
}

/// The parameters that an actor currently works with. An actor keeps its state to itself,
/// changes it only by applying control messages, and hands out copies.
#[derive(Clone, Copy, Debug, PartialEq, Eq, Structural)]
pub struct ActorState {
    pub current_qos: i32,
    pub current_delay: i32,
}

/// What became of a control message.
#[derive(Clone, Copy, Debug, PartialEq, Eq)]
pub enum Applied {
    /// The quality-of-service level was adopted.
    QosAdopted(i32),
    /// The delay was adopted.
    DelayAdopted(i32),
    /// The message left both parameters unchanged.
    Unchanged,
    /// The message was skipped: the value it offered is out of range.
    Rejected(RangeError),
}

/// Whether `value` lies in the closed range from `low` to `high`.
pub open spec fn within(value: int, low: int, high: int) -> bool {
    low <= value <= high
}

/// Whether `level` is a quality-of-service level.
pub open spec fn qos_in_range(level: int) -> bool {
    within(level, QOS_LOWEST as int, QOS_HIGHEST as int)
}

/// Whether `delay` is a delay of at most `max_delay`.
pub open spec fn delay_in_range(delay: int, max_delay: int) -> bool {
    within(delay, DELAY_SHORTEST as int, max_delay)
}

/// Hands `value` back if it lies between `low` and `high`, and says what was wrong if not.
pub fn check_range(parameter: Parameter, value: i32, low: i32, high: i32) -> (r: Result<
    i32,
    RangeError,
>)
    ensures
        within(value as int, low as int, high as int) ==> r == Ok::<i32, RangeError>(value),
        !within(value as int, low as int, high as int) ==> r == Err::<i32, RangeError>(
            RangeError { parameter, value, low, high },
        ),
{
    if low <= value && value <= high {
        Ok(value)
    } else {
        Err(RangeError { parameter, value, low, high })
    }
}

impl Parameter {
    /// The name under which the parameter is reported.
    pub open spec fn name_text(self) -> Seq<char> {
        match self {
            Parameter::Qos => "QoS"@,
            Parameter::Delay => "Delay"@,
        }
    }

    /// The name under which the parameter is reported.
    pub fn name(&self) -> (r: &'static str)
        ensures
            r@ == self.name_text(),
    {
        match self {
            Parameter::Qos => "QoS",
            Parameter::Delay => "Delay",
        }
    }
}

impl RangeError {
    /// The sentence that reports the error: the parameter, its range and the value that was
    /// offered.
    pub open spec fn message_text(self) -> Seq<char> {
        self.parameter.name_text() + " was not within range "@ + decimal(self.low as int)
            + "..="@ + decimal(self.high as int) + ": "@ + decimal(self.value as int)
    }

    /// Writes the sentence that reports the error.
    pub fn message(&self) -> (r: String)
        ensures
            r@ == self.message_text(),
    {
        let mut out = String::from_str(self.parameter.name());
        out.append(" was not within range ");
        out.append(decimal_string(self.low).as_str());
        out.append("..=");
        out.append(decimal_string(self.high).as_str());
        out.append(": ");
        out.append(decimal_string(self.value).as_str());
        out
    }
}

impl ControlMessage {
    /// Whether the message changes exactly one parameter.
    pub open spec fn well_formed(self) -> bool {
        (self.qos is Some) != (self.delay is Some)
    }

    /// The message that offers a new quality-of-service level.
    pub fn qos(level: i32) -> (r: ControlMessage)
        ensures
            r.qos == Some(level),
            r.delay is None,
            r.well_formed(),
    {
        ControlMessage { qos: Some(level), delay: None }
    }

    /// The message that offers a new delay.
    pub fn delay(delay: i32) -> (r: ControlMessage)
        ensures
            r.qos is None,
            r.delay == Some(delay),
            r.well_formed(),
    {
        ControlMessage { qos: None, delay: Some(delay) }
    }

    /// What one integer of a pair stands for: nothing if it is `UNCHANGED`, else a value.
    pub open spec fn field_of(raw: i32) -> Option<i32> {
        if raw == UNCHANGED {
            None
        } else {
            Some(raw)
        }
    }

    /// The integer that stands for one field in a pair.
    pub open spec fn raw_of(field: Option<i32>) -> i32 {
        match field {
            Some(value) => value,
            None => UNCHANGED,
        }
    }

    /// Reads a message from a pair of integers in which `UNCHANGED` marks a field that
    /// carries nothing.
    pub fn from_pair(qos: i32, delay: i32) -> (r: ControlMessage)
        ensures
            r.qos == Self::field_of(qos),
            r.delay == Self::field_of(delay),
    {
        ControlMessage {
            qos: if qos == UNCHANGED {
                None
            } else {
                Some(qos)
            },
            delay: if delay == UNCHANGED {
                None
            } else {
                Some(delay)
            },
        }
    }

    /// Writes the message as a pair of integers, with `UNCHANGED` for a field that carries
    /// nothing.
    pub fn to_pair(&self) -> (r: (i32, i32))
        ensures
            r.0 == Self::raw_of(self.qos),
            r.1 == Self::raw_of(self.delay),
    {
        let qos: i32 = match self.qos {
            Some(value) => value,
            None => UNCHANGED,
        };
        let delay: i32 = match self.delay {
            Some(value) => value,
            None => UNCHANGED,
        };
        (qos, delay)
    }
}

impl ActorState {
    /// Whether both parameters lie in their ranges.
    pub open spec fn in_domain(self, max_delay: int) -> bool {
        qos_in_range(self.current_qos as int) && delay_in_range(
            self.current_delay as int,
            max_delay,
        )
    }

    /// What `message` makes of the state. A quality-of-service level is looked at first, and a
    /// message that carries one says nothing about the delay.
    pub open spec fn after(self, message: ControlMessage, max_delay: int) -> ActorState {
        match message.qos {
            Some(level) => if qos_in_range(level as int) {
                ActorState { current_qos: level, current_delay: self.current_delay }
            } else {
                self
            },
            None => match message.delay {
                Some(delay) => if delay_in_range(delay as int, max_delay) {
                    ActorState { current_qos: self.current_qos, current_delay: delay }
                } else {
                    self
                },
                None => self,
            },
        }
    }

    /// What is reported of `message` once it has been looked at.
    pub open spec fn verdict(message: ControlMessage, max_delay: i32) -> Applied {
        match message.qos {
            Some(level) => if qos_in_range(level as int) {
                Applied::QosAdopted(level)
            } else {
                Applied::Rejected(
                    RangeError {
                        parameter: Parameter::Qos,
                        value: level,
                        low: QOS_LOWEST,
                        high: QOS_HIGHEST,
                    },
                )
            },
            None => match message.delay {
                Some(delay) => if delay_in_range(delay as int, max_delay as int) {
                    Applied::DelayAdopted(delay)
                } else {
                    Applied::Rejected(
                        RangeError {
                            parameter: Parameter::Delay,
                            value: delay,
                            low: DELAY_SHORTEST,
                            high: max_delay,
                        },
                    )
                },
                None => Applied::Unchanged,
            },
        }
    }

    /// The state of an actor that has just started: both parameters at their lowest value.
    pub fn new() -> (r: ActorState)
        ensures
            r.current_qos == QOS_LOWEST,
            r.current_delay == DELAY_SHORTEST,
            forall|max_delay: int| max_delay >= 0 ==> r.in_domain(max_delay),
    {
        ActorState { current_qos: QOS_LOWEST, current_delay: DELAY_SHORTEST }
    }

    /// Looks at one control message. A value inside its range is adopted and the other
    /// parameter stays as it was; a value outside its range leaves the state as it was and
    /// comes back as the error to report. The level is looked at first: a message that
    /// carries one is done with it.
    pub fn apply(&mut self, message: ControlMessage, max_delay: i32) -> (r: Applied)
        ensures
            match message.qos {
                Some(level) => if qos_in_range(level as int) {
                    &&& final(self).current_qos == level
                    &&& final(self).current_delay == old(self).current_delay
                    &&& r == Applied::QosAdopted(level)
                } else {
                    &&& *final(self) == *old(self)
                    &&& r == Applied::Rejected(
                        RangeError {
                            parameter: Parameter::Qos,
                            value: level,
                            low: QOS_LOWEST,
                            high: QOS_HIGHEST,
                        },
                    )
                },
                None => match message.delay {
                    Some(delay) => if delay_in_range(delay as int, max_delay as int) {
                        &&& final(self).current_delay == delay
                        &&& final(self).current_qos == old(self).current_qos
                        &&& r == Applied::DelayAdopted(delay)
                    } else {
                        &&& *final(self) == *old(self)
                        &&& r == Applied::Rejected(
                            RangeError {
                                parameter: Parameter::Delay,
                                value: delay,
                                low: DELAY_SHORTEST,
                                high: max_delay,
                            },
                        )
                    },
                    None => *final(self) == *old(self) && r == Applied::Unchanged,
                },
            },
            *final(self) == old(self).after(message, max_delay as int),
            r == Self::verdict(message, max_delay),
            old(self).in_domain(max_delay as int) ==> final(self).in_domain(max_delay as int),
    {
        match message.qos {
            Some(level) => match check_range(Parameter::Qos, level, QOS_LOWEST, QOS_HIGHEST) {
                Ok(level) => {
                    self.current_qos = level;
                    Applied::QosAdopted(level)
                },
                Err(error) => Applied::Rejected(error),
            },
            None => match message.delay {
                Some(delay) => match check_range(
                    Parameter::Delay,
                    delay,
                    DELAY_SHORTEST,
                    max_delay,
                ) {
                    Ok(delay) => {
                        self.current_delay = delay;
                        Applied::DelayAdopted(delay)
                    },
                    Err(error) => Applied::Rejected(error),
                },
                None => Applied::Unchanged,
            },
        }
    }
}

} // verus!
