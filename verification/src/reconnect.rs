use crate::config::Config;
use vstd::prelude::*;

verus! {

/// How an actor tries to get a lost connection back: up to `retries` attempts, each after a
/// wait of `retry_duration` milliseconds.
#[derive(Clone, Copy, Debug, PartialEq, Eq, Structural)]
pub struct ReconnectPolicy {
    pub retries: u64,
    pub retry_duration: u64,
}

/// What the policy asks for next.
#[derive(Clone, Copy, Debug, PartialEq, Eq)]
pub enum ReconnectStep {
    /// Wait for `wait` milliseconds, then try to reconnect.
    Attempt { wait: u64 },
    /// Stop: the connection is back (`true`), or every attempt has failed (`false`).
    Done(bool),
}

/// How a run of the policy ended.
#[derive(Clone, Copy, Debug, PartialEq, Eq, Structural)]
pub struct ReconnectOutcome {
    /// Whether the connection is back.
    pub connected: bool,
    /// How many attempts were made, each after one wait.
    pub attempts: u64,
}

/// The course that the policy takes: the waits it asks for, one after the other, and how it
/// ends.
pub struct Course {
    /// The waits, in milliseconds, each followed by one attempt.
    pub waits: Seq<u64>,
    /// How the policy ends.
    pub outcome: ReconnectOutcome,
}

impl ReconnectPolicy {
    /// What the policy asks for after `attempts` attempts, the last of which ended as `last`
    /// says (`None` before the first one): nothing more once an attempt has succeeded, one
    /// more attempt while fewer than `retries` were made, and else to give up.
    pub open spec fn step_after(self, attempts: u64, last: Option<bool>) -> ReconnectStep {
        if last == Some(true) {
            ReconnectStep::Done(true)
        } else if attempts < self.retries {
            ReconnectStep::Attempt { wait: self.retry_duration }
        } else {
            ReconnectStep::Done(false)
        }
    }

    /// Whether `outcome` is how the policy ends when the attempts come out as `results` says,
    /// one after the other: every attempt but the last one failed, the run is connected
    /// exactly if the last one succeeded, and a run that is not connected has used up all
    /// `retries` attempts.
    pub open spec fn ends_as(self, results: Seq<bool>, outcome: ReconnectOutcome) -> bool {
        &&& results.len() == outcome.attempts
        &&& outcome.attempts <= self.retries
        &&& forall|i: int| 0 <= i < outcome.attempts - 1 ==> !results[i]
        &&& outcome.connected == (outcome.attempts > 0 && results[outcome.attempts - 1])
        &&& !outcome.connected ==> outcome.attempts == self.retries
    }

    /// The course that the policy takes from the point where `attempts` attempts were made
    /// and the last one ended as `last` says, when the attempts to come end as `outcomes`
    /// says at their places: the policy is asked step by step, each attempt it asks for is
    /// made after its wait, and its outcome is handed back. Where `outcomes` holds no outcome
    /// for an attempt that the policy asks for, the course breaks off.
    pub open spec fn course(self, outcomes: Seq<bool>, attempts: u64, last: Option<bool>) -> Course
        decreases outcomes.len() - attempts,
    {
        match self.step_after(attempts, last) {
            ReconnectStep::Done(connected) => Course {
                waits: Seq::empty(),
                outcome: ReconnectOutcome { connected, attempts },
            },
            ReconnectStep::Attempt { wait } => if attempts < outcomes.len() {
                let rest = self.course(
                    outcomes,
                    (attempts + 1) as u64,
                    Some(outcomes[attempts as int]),
                );
                Course { waits: seq![wait] + rest.waits, outcome: rest.outcome }
            } else {
                Course {
                    waits: Seq::empty(),
                    outcome: ReconnectOutcome { connected: false, attempts },
                }
            },
        }
    }

    /// The policy that `config` sets for the subscribing actor.
    pub fn from_config(config: &Config) -> (r: ReconnectPolicy)
        ensures
            r.retries == config.subscriber_connection.retries,
            r.retry_duration == config.subscriber_connection.retry_duration,
    {
        ReconnectPolicy {
            retries: config.subscriber_connection.retries,
            retry_duration: config.subscriber_connection.retry_duration,
        }
    }

    /// Decides what comes next after `attempts` attempts, the last of which ended as `last`
    /// says.
    pub fn next_step(&self, attempts: u64, last: Option<bool>) -> (r: ReconnectStep)
        ensures
            r == self.step_after(attempts, last),
    {
        match last {
            Some(true) => ReconnectStep::Done(true),
            _ => if attempts < self.retries {
                ReconnectStep::Attempt { wait: self.retry_duration }
            } else {
                ReconnectStep::Done(false)
            },
        }
    }

    /// Runs the policy: `sleep` is called with the wait before each attempt, `reconnect` makes
    /// the attempt and says whether it succeeded. The run ends at the first success, or when
    /// `retries` attempts have failed.
    pub fn run<R: Fn() -> bool, S: Fn(u64)>(&self, reconnect: R, sleep: S) -> (r:
        ReconnectOutcome)
        requires
            call_requires(reconnect, ()),
            call_requires(sleep, (self.retry_duration,)),
        ensures
            r.attempts <= self.retries,
            r.connected ==> r.attempts >= 1,
            !r.connected ==> r.attempts == self.retries,
            exists|results: Seq<bool>|
                {
                    &&& self.ends_as(results, r)
                    &&& forall|i: int|
                        0 <= i < results.len() ==> call_ensures(reconnect, (), #[trigger] results[i])
                },
    {
        let mut attempts: u64 = 0;
        let mut last: Option<bool> = None;
        let ghost mut results: Seq<bool> = Seq::empty();
        loop
            invariant
                call_requires(reconnect, ()),
                call_requires(sleep, (self.retry_duration,)),
                results.len() == attempts,
                attempts <= self.retries,
                forall|i: int| 0 <= i < attempts - 1 ==> !results[i],
                forall|i: int| 0 <= i < results.len() ==> call_ensures(reconnect, (), #[trigger] results[i]),
                last is None <==> attempts == 0,
                last matches Some(ended) ==> ended == results[attempts - 1],
            decreases self.retries - attempts, if last == Some(true) { 0int } else { 1int },
        {
            match self.next_step(attempts, last) {
                ReconnectStep::Attempt { wait } => {
                    sleep(wait);
                    let ended: bool = reconnect();
                    proof {
                        results = results.push(ended);
                    }
                    attempts = attempts + 1;
                    last = Some(ended);
                },
                ReconnectStep::Done(connected) => {
                    let outcome = ReconnectOutcome { connected, attempts };
                    assert(self.ends_as(results, outcome));
                    return outcome;
                },
            }
        }
    }
}

/// Attempts to get the connection back, up to `retries` times, waiting `retry_duration`
/// milliseconds before each attempt. `true` says that an attempt succeeded, `false` that all
/// of them failed.
pub fn try_reconnect<R: Fn() -> bool, S: Fn(u64)>(
    retries: u64,
    retry_duration: u64,
    reconnect: R,
    sleep: S,
) -> (r: bool)
    requires
        call_requires(reconnect, ()),
        call_requires(sleep, (retry_duration,)),
    ensures
        exists|results: Seq<bool>|
            {
                &&& (ReconnectPolicy { retries, retry_duration }).ends_as(
                    results,
                    ReconnectOutcome { connected: r, attempts: results.len() as u64 },
                )
                &&& forall|i: int|
                    0 <= i < results.len() ==> call_ensures(reconnect, (), #[trigger] results[i])
            },
        r ==> retries > 0 && call_ensures(reconnect, (), true),
        !r && retries > 0 ==> call_ensures(reconnect, (), false),
{
    let policy = ReconnectPolicy { retries, retry_duration };
    let outcome = policy.run(reconnect, sleep);
    proof {
        let results = choose|results: Seq<bool>|
            {
                &&& policy.ends_as(results, outcome)
                &&& forall|i: int|
                    0 <= i < results.len() ==> call_ensures(reconnect, (), #[trigger] results[i])
            };
        if outcome.attempts > 0 {
            assert(call_ensures(reconnect, (), results[outcome.attempts - 1]));
        }
        assert(policy.ends_as(
            results,
            ReconnectOutcome { connected: outcome.connected, attempts: results.len() as u64 },
        ));
    }
    outcome.connected
}

/// The policy leaves nothing open: how a run ends depends on how the attempts come out and
/// on nothing else. Two runs whose attempts come out alike, as far as both runs go, end
/// alike, after the same number of attempts.
pub proof fn lemma_outcome_is_determined(
    policy: ReconnectPolicy,
    first: Seq<bool>,
    second: Seq<bool>,
    one: ReconnectOutcome,
    other: ReconnectOutcome,
)
    requires
        policy.ends_as(first, one),
        policy.ends_as(second, other),
        forall|i: int| 0 <= i < first.len() && i < second.len() ==> first[i] == second[i],
    ensures
        one == other,
{
    if one.attempts < other.attempts {
        if one.connected {
            assert(!second[one.attempts - 1]);
        }
    } else if other.attempts < one.attempts {
        if other.connected {
            assert(!first[other.attempts - 1]);
        }
    }
}

/// From any point of a run on, the course of the policy keeps to the schedule: it asks for
/// one wait of `retry_duration` with each attempt and for none after the last, it makes no
/// more than `retries` attempts, and it ends as `ends_as` says of the outcomes it has used.
pub proof fn lemma_course_from(
    policy: ReconnectPolicy,
    outcomes: Seq<bool>,
    attempts: u64,
    last: Option<bool>,
)
    requires
        outcomes.len() >= policy.retries,
        attempts <= policy.retries,
        attempts == 0 ==> last is None,
        attempts > 0 ==> last == Some(outcomes[attempts - 1]),
        forall|j: int| 0 <= j < attempts - 1 ==> !outcomes[j],
    ensures
        ({
            let course = policy.course(outcomes, attempts, last);
            &&& attempts <= course.outcome.attempts <= policy.retries
            &&& course.waits.len() == course.outcome.attempts - attempts
            &&& forall|i: int|
                0 <= i < course.waits.len() ==> course.waits[i] == policy.retry_duration
            &&& policy.ends_as(outcomes.take(course.outcome.attempts as int), course.outcome)
        }),
    decreases policy.retries - attempts,
{
    let course = policy.course(outcomes, attempts, last);
    match policy.step_after(attempts, last) {
        ReconnectStep::Done(connected) => {
            assert(course.outcome == ReconnectOutcome { connected, attempts });
        },
        ReconnectStep::Attempt { wait } => {
            let next: u64 = (attempts + 1) as u64;
            let rest = policy.course(outcomes, next, Some(outcomes[attempts as int]));
            lemma_course_from(policy, outcomes, next, Some(outcomes[attempts as int]));
            assert(course.waits == seq![wait] + rest.waits);
            assert forall|i: int| 0 <= i < course.waits.len() implies course.waits[i]
                == policy.retry_duration by {
                if i > 0 {
                    assert(course.waits[i] == rest.waits[i - 1]);
                }
            }
        },
    }
}

/// The schedule of the policy. Whatever the attempts come to, the policy waits
/// `retry_duration` once with each attempt and never after the last one; it stops at the
/// first attempt that succeeds, connected, after that many attempts and waits; and where
/// none of the first `retries` attempts succeeds it stops after `retries` attempts and
/// waits, not connected.
pub proof fn lemma_schedule(policy: ReconnectPolicy, outcomes: Seq<bool>)
    requires
        outcomes.len() >= policy.retries,
    ensures
        ({
            let course = policy.course(outcomes, 0, None);
            &&& course.outcome.attempts <= policy.retries
            &&& course.waits == Seq::new(
                course.outcome.attempts as nat,
                |i: int| policy.retry_duration,
            )
            &&& policy.ends_as(outcomes.take(course.outcome.attempts as int), course.outcome)
            &&& forall|k: int|
                0 <= k < policy.retries && #[trigger] outcomes[k] && (forall|j: int|
                    0 <= j < k ==> !outcomes[j]) ==> course.outcome == (ReconnectOutcome {
                    connected: true,
                    attempts: (k + 1) as u64,
                })
            &&& (forall|i: int| 0 <= i < policy.retries ==> !outcomes[i]) ==> course.outcome == (
                ReconnectOutcome { connected: false, attempts: policy.retries }
            )
        }),
{
    lemma_course_from(policy, outcomes, 0, None);
    let course = policy.course(outcomes, 0, None);
    let used = outcomes.take(course.outcome.attempts as int);
    assert(course.waits =~= Seq::new(
        course.outcome.attempts as nat,
        |i: int| policy.retry_duration,
    ));
    assert forall|k: int|
        0 <= k < policy.retries && #[trigger] outcomes[k] && (forall|j: int|
            0 <= j < k ==> !outcomes[j]) implies course.outcome == (ReconnectOutcome {
        connected: true,
        attempts: (k + 1) as u64,
    }) by {
        if course.outcome.attempts > k + 1 {
            assert(!used[k]);
        } else if course.outcome.attempts < k + 1 {
            if course.outcome.connected {
                assert(used[course.outcome.attempts - 1]);
            }
        } else {
            assert(used[k] == outcomes[k]);
        }
    }
    if forall|i: int| 0 <= i < policy.retries ==> !outcomes[i] {
        if course.outcome.connected {
            assert(used[course.outcome.attempts - 1]);
        }
    }
}

/// A run of the policy is a course of the policy: whenever a run ends as `ends_as` says of
/// the results of its attempts, the course over these results asks for one wait of
/// `retry_duration` with each of the attempts, and ends as the run did.
pub proof fn lemma_run_is_a_course(
    policy: ReconnectPolicy,
    results: Seq<bool>,
    outcome: ReconnectOutcome,
    attempts: u64,
    last: Option<bool>,
)
    requires
        policy.ends_as(results, outcome),
        attempts <= outcome.attempts,
        attempts == 0 ==> last is None,
        attempts > 0 ==> last == Some(results[attempts - 1]),
    ensures
        policy.course(results, attempts, last) == (Course {
            waits: Seq::new((outcome.attempts - attempts) as nat, |i: int| policy.retry_duration),
            outcome,
        }),
    decreases outcome.attempts - attempts,
{
    let course = policy.course(results, attempts, last);
    if attempts < outcome.attempts {
        if attempts > 0 {
            assert(!results[attempts - 1]);
        }
        let next: u64 = (attempts + 1) as u64;
        lemma_run_is_a_course(policy, results, outcome, next, Some(results[attempts as int]));
        let rest = policy.course(results, next, Some(results[attempts as int]));
        assert(course.waits == seq![policy.retry_duration] + rest.waits);
        assert(course.waits =~= Seq::new(
            (outcome.attempts - attempts) as nat,
            |i: int| policy.retry_duration,
        ));
    } else {
        assert(course.waits =~= Seq::new(
            (outcome.attempts - attempts) as nat,
            |i: int| policy.retry_duration,
        ));
    }
}

} // verus!
