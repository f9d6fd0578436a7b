use crate::channel::ControlChannel;
use crate::config::Config;
use crate::driver::{Driver, DriverView};
use crate::fatal::Fatal;
use crate::params::ControlMessage;
use crate::plan::SweepPlan;
use crate::probe::{Probe, ProbeMode, ProbeView};
use crate::source::{SourcePhase, SweepSource};
use vstd::prelude::*;

verus! {

/// One of the two actors of a run.
#[derive(Clone, Copy, Debug, PartialEq, Eq, Structural)]
pub enum Role {
    /// The publishing actor.
    Driver,
    /// The subscribing actor.
    Probe,
}

/// The publishing actor of a run, in the form that the run calls for.
#[derive(Clone, Debug, PartialEq, Eq)]
pub enum Publishing {
    /// The publishing actor holds the plan and sends the control messages.
    Source(SweepSource),
    /// The publishing actor receives the control messages.
    Controlled(Driver),
}

/// How the task of an actor ended.
#[derive(Clone, Copy, Debug, PartialEq, Eq)]
pub enum Exit {
    /// The actor left the broker and returned.
    Clean,
    /// The actor gave up, for the reason it names.
    Aborted(Fatal),
    /// The task broke off without a word.
    Panicked,
}

/// How a run ended.
#[derive(Clone, Copy, Debug, PartialEq, Eq)]
pub enum Verdict {
    /// Both actors returned.
    Completed,
    /// The task of `role` did not end cleanly: the whole run has failed.
    Failed { role: Role, exit: Exit },
}

/// What a run is made of: one channel, one publishing actor and one subscribing actor.
/// The actor that holds the parameters owns the sending end of the channel, the other one
/// the receiving end.
pub struct SweepCoordinator {
    pub channel: ControlChannel,
    pub publishing: Publishing,
    pub probe: Probe,
}

/// The verdict on a run whose publishing actor ended as `driver` says and whose subscribing
/// actor ended as `probe` says. The tasks are joined in this order, and the first one that
/// did not end cleanly fails the run.
pub open spec fn verdict_of(driver: Exit, probe: Exit) -> Verdict {
    if driver != Exit::Clean {
        Verdict::Failed { role: Role::Driver, exit: driver }
    } else if probe != Exit::Clean {
        Verdict::Failed { role: Role::Probe, exit: probe }
    } else {
        Verdict::Completed
    }
}

/// Joins the ends of the two tasks into the verdict on the run. No failure is passed over.
pub fn conclude(driver: Exit, probe: Exit) -> (r: Verdict)
    ensures
        r == verdict_of(driver, probe),
        r == Verdict::Completed <==> driver == Exit::Clean && probe == Exit::Clean,
{
    match driver {
        Exit::Clean => match probe {
            Exit::Clean => Verdict::Completed,
            _ => Verdict::Failed { role: Role::Probe, exit: probe },
        },
        _ => Verdict::Failed { role: Role::Driver, exit: driver },
    }
}

impl SweepCoordinator {
    /// Sets a run up from `config`: a fresh channel and two actors that have not started. A
    /// subscribing actor in templated mode follows a publishing actor that walks the
    /// standard plan; a subscribing actor in static mode steers a publishing actor that
    /// waits for control messages.
    pub fn new(config: &Config) -> (r: SweepCoordinator)
        ensures
            r.channel.well_formed(),
            r.channel.sender_open(),
            r.channel.receiver_open(),
            r.channel.pending() == Seq::<ControlMessage>::empty(),
            r.channel.sent() == Seq::<ControlMessage>::empty(),
            r.probe@ == ProbeView::initial(config@),
            match r.publishing {
                Publishing::Source(source) => r.probe@.mode == ProbeMode::Templated
                    && source@.phase == SourcePhase::Idle && source@.levels == seq![0i32, 1, 2]
                    && source@.delays == seq![0i32, 10, 20, 50, 100, 500],
                Publishing::Controlled(driver) => r.probe@.mode == ProbeMode::Static && driver@
                    == DriverView::initial(config@),
            },
    {
        let probe = Probe::new(config);
        let publishing = match probe.mode() {
            ProbeMode::Templated => Publishing::Source(SweepSource::new(SweepPlan::standard())),
            ProbeMode::Static => Publishing::Controlled(Driver::new(config)),
        };
        SweepCoordinator { channel: ControlChannel::new(), publishing, probe }
    }
}

} // verus!
