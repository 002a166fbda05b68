//! The wait of a blocking caller for one asynchronous operation.
//!
//! The caller starts the operation on a runtime of its own, polls the channel
//! on which the operation sends its one result, and sleeps for a short
//! interval whenever the channel is empty. After each sleep it reads the
//! clock. [`Bridge::decide`] says, for what one such round has seen, whether
//! the wait is over and with which result. Whenever the wait is over the
//! runtime is torn down, finished or not.

use vstd::prelude::*;
use crate::config::ConfigError;

verus! {

/// How long a caller waits for a result before it gives up, in nanoseconds.
pub const DEADLINE_NANOS: u64 = 3_000_000_000;

/// How long a caller sleeps after a poll that found nothing, in nanoseconds.
pub const POLL_INTERVAL_NANOS: u64 = 10_000;

/// What a caller is told when the deadline has passed.
pub const TIMEOUT_MESSAGE: &'static str = "timeout reading from zerotier";

/// Why a bridged call gave no result. `E` is the error of the remote call
/// and is handed on as it came.
#[derive(Clone, Debug, PartialEq, Eq)]
pub enum BridgeError<E> {
    /// No result arrived before the deadline. The request may have been
    /// carried out all the same.
    Timeout,
    /// The remote call failed or was answered with a failure.
    Remote(E),
    /// The client could not be set up, so no request was made.
    Configuration(ConfigError),
}

/// What an operation sends to the waiting caller, and what the caller gets.
pub type BridgeOutcome<T, E> = Result<T, BridgeError<E>>;

/// What one round of the wait has seen.
#[derive(Clone, Debug, PartialEq, Eq)]
pub enum Observation<V> {
    /// The poll found the operation's result.
    Received(V),
    /// The poll found nothing; after the sleep that followed, the clock
    /// stood at `elapsed_nanos` since the wait began.
    Empty { elapsed_nanos: u64 },
}

/// What the caller does after one round of the wait.
#[derive(Clone, Debug, PartialEq, Eq)]
pub enum Decision<V> {
    /// Tear the runtime down and return this.
    Finish(V),
    /// Poll once more.
    PollAgain,
}

/// The two numbers that govern a wait.
#[derive(Clone, Copy, Debug, PartialEq, Eq, Structural)]
pub struct Bridge {
    /// The wait is given up once the clock is read beyond this.
    pub deadline_nanos: u64,
    /// The sleep after a poll that found nothing.
    pub poll_interval_nanos: u64,
}

impl Bridge {
    /// What follows from one round of the wait: a result that arrived is
    /// returned as it is, a clock beyond the deadline ends the wait with
    /// [`BridgeError::Timeout`], and anything else means another round.
    pub open spec fn decision<T, E>(self, seen: Observation<BridgeOutcome<T, E>>) -> Decision<
        BridgeOutcome<T, E>,
    > {
        match seen {
            Observation::Received(outcome) => Decision::Finish(outcome),
            Observation::Empty { elapsed_nanos } => if elapsed_nanos > self.deadline_nanos {
                Decision::Finish(Err(BridgeError::Timeout))
            } else {
                Decision::PollAgain
            },
        }
    }

    /// Whether the wait is over with this round.
    pub open spec fn settles<T, E>(self, seen: Observation<BridgeOutcome<T, E>>) -> bool {
        self.decision(seen) is Finish
    }

    /// Whether round `at` of `trace` is the one that ends the wait: the first
    /// that settles it.
    pub open spec fn settles_at<T, E>(
        self,
        trace: Seq<Observation<BridgeOutcome<T, E>>>,
        at: int,
    ) -> bool {
        &&& 0 <= at < trace.len()
        &&& self.settles(trace[at])
        &&& forall|earlier: int| 0 <= earlier < at ==> !self.settles(#[trigger] trace[earlier])
    }

    /// Whether `trace` is what a caller sees of an operation that never
    /// completes when each sleep takes one poll interval at most: every poll
    /// finds nothing, the first reading of the clock is at most one interval,
    /// and each later one is at most one interval beyond the one before.
    pub open spec fn paced<T, E>(self, trace: Seq<Observation<BridgeOutcome<T, E>>>) -> bool {
        &&& forall|i: int| 0 <= i < trace.len() ==> #[trigger] trace[i] is Empty
        &&& trace.len() > 0 ==> trace[0]->elapsed_nanos <= self.poll_interval_nanos
        &&& forall|i: int|
            0 < i < trace.len() ==> {
                &&& trace[i - 1]->elapsed_nanos <= (#[trigger] trace[i])->elapsed_nanos
                &&& trace[i]->elapsed_nanos <= trace[i - 1]->elapsed_nanos
                    + self.poll_interval_nanos
            }
    }

    /// A wait with the given deadline and poll interval.
    pub fn new(deadline_nanos: u64, poll_interval_nanos: u64) -> (bridge: Bridge)
        ensures
            bridge == (Bridge { deadline_nanos, poll_interval_nanos }),
    {
        Bridge { deadline_nanos, poll_interval_nanos }
    }

    /// The wait that every call of this crate uses: [`DEADLINE_NANOS`] and
    /// [`POLL_INTERVAL_NANOS`].
    pub fn standard() -> (bridge: Bridge)
        ensures
            bridge == (Bridge {
                deadline_nanos: DEADLINE_NANOS,
                poll_interval_nanos: POLL_INTERVAL_NANOS,
            }),
    {
        Bridge { deadline_nanos: DEADLINE_NANOS, poll_interval_nanos: POLL_INTERVAL_NANOS }
    }

    /// Tells whether the wait is over with this round, without taking the
    /// result out of it.
    pub fn is_settled_by<T, E>(&self, seen: &Observation<BridgeOutcome<T, E>>) -> (over: bool)
        ensures
            over == self.settles(*seen),
    {
        match seen {
            Observation::Received(_) => true,
            Observation::Empty { elapsed_nanos } => *elapsed_nanos > self.deadline_nanos,
        }
    }

    /// Decides what follows from one round of the wait.
    pub fn decide<T, E>(&self, seen: Observation<BridgeOutcome<T, E>>) -> (decision: Decision<
        BridgeOutcome<T, E>,
    >)
        ensures
            decision == self.decision(seen),
    {
        match seen {
            Observation::Received(outcome) => Decision::Finish(outcome),
            Observation::Empty { elapsed_nanos } => {
                if elapsed_nanos > self.deadline_nanos {
                    Decision::Finish(Err(BridgeError::Timeout))
                } else {
                    Decision::PollAgain
                }
            },
        }
    }

    /// Runs a wait over rounds that were recorded beforehand.
    ///
    /// Gives the round that ended the wait and what the caller got, or `None`
    /// if the wait was still going on after the last round.
    pub fn replay<T, E>(&self, trace: Vec<Observation<BridgeOutcome<T, E>>>) -> (end: Option<
        (usize, BridgeOutcome<T, E>),
    >)
        ensures
            match end {
                Some((at, outcome)) => {
                    &&& self.settles_at(trace@, at as int)
                    &&& self.decision(trace@[at as int]) == Decision::Finish(outcome)
                },
                None => forall|i: int| 0 <= i < trace.len() ==> !self.settles(#[trigger] trace@[i]),
            },
    {
        let mut rounds = trace;
        let mut at: usize = 0;
        while at < rounds.len()
            invariant
                rounds == trace,
                at <= rounds.len(),
                forall|i: int| 0 <= i < at ==> !self.settles(#[trigger] trace@[i]),
            decreases rounds.len() - at,
        {
            if self.is_settled_by(&rounds[at]) {
                let seen = rounds.swap_remove(at);
                return match self.decide(seen) {
                    Decision::Finish(outcome) => Some((at, outcome)),
                    Decision::PollAgain => None,
                };
            }
            at += 1;
        }
        None
    }
}

/// An operation whose result is there at the first poll gives the caller
/// exactly that result, whatever the deadline and the poll interval are.
pub proof fn immediate_result_is_returned<T, E>(
    bridge: Bridge,
    trace: Seq<Observation<BridgeOutcome<T, E>>>,
    outcome: BridgeOutcome<T, E>,
)
    requires
        trace.len() > 0,
        trace[0] == Observation::Received(outcome),
    ensures
        bridge.settles_at(trace, 0),
        bridge.decision(trace[0]) == Decision::Finish(outcome),
{
}

/// A result that has arrived is never turned into a timeout, and a timeout
/// is never declared while the clock is within the deadline.
pub proof fn timeout_only_beyond_deadline<T, E>(
    bridge: Bridge,
    seen: Observation<BridgeOutcome<T, E>>,
)
    ensures
        seen matches Observation::Received(outcome) ==> bridge.decision(seen) == Decision::Finish(
            outcome,
        ),
        seen matches Observation::Empty { elapsed_nanos } ==> (bridge.decision(seen)
            == Decision::Finish(Err::<T, BridgeError<E>>(BridgeError::Timeout)) <==> elapsed_nanos
            > bridge.deadline_nanos),
        seen matches Observation::Empty { elapsed_nanos } ==> (bridge.decision(seen)
            == Decision::<BridgeOutcome<T, E>>::PollAgain <==> elapsed_nanos
            <= bridge.deadline_nanos),
{
}

/// When the operation never completes and no sleep takes longer than one
/// poll interval, the wait ends with a timeout, at a reading of the clock
/// that is beyond the deadline by one poll interval at most.
pub proof fn timeout_within_one_interval<T, E>(
    bridge: Bridge,
    trace: Seq<Observation<BridgeOutcome<T, E>>>,
    at: int,
)
    requires
        bridge.paced(trace),
        bridge.settles_at(trace, at),
    ensures
        bridge.decision(trace[at]) == Decision::Finish(
            Err::<T, BridgeError<E>>(BridgeError::Timeout),
        ),
        bridge.deadline_nanos < trace[at]->elapsed_nanos,
        trace[at]->elapsed_nanos <= bridge.deadline_nanos + bridge.poll_interval_nanos,
{
    assert(trace[at] is Empty);
    if at > 0 {
        assert(!bridge.settles(trace[at - 1]));
        assert(trace[at - 1] is Empty);
    }
}

/// When the operation never completes, the wait is over no later than the
/// first reading of the clock beyond the deadline: some round up to `late`
/// ends it.
pub proof fn timeout_is_reached<T, E>(
    bridge: Bridge,
    trace: Seq<Observation<BridgeOutcome<T, E>>>,
    late: int,
) -> (at: int)
    requires
        0 <= late < trace.len(),
        bridge.settles(trace[late]),
    ensures
        at <= late,
        bridge.settles_at(trace, at),
    decreases late,
{
    if exists|earlier: int| 0 <= earlier < late && bridge.settles(#[trigger] trace[earlier]) {
        let earlier = choose|earlier: int|
            0 <= earlier < late && bridge.settles(#[trigger] trace[earlier]);
        timeout_is_reached(bridge, trace, earlier)
    } else {
        late
    }
}

/// At most one round ends a wait.
pub proof fn end_of_wait_is_unique<T, E>(
    bridge: Bridge,
    trace: Seq<Observation<BridgeOutcome<T, E>>>,
    a: int,
    b: int,
)
    requires
        bridge.settles_at(trace, a),
        bridge.settles_at(trace, b),
    ensures
        a == b,
{
    if a < b {
        assert(!bridge.settles(trace[a]));
    }
    if b < a {
        assert(!bridge.settles(trace[b]));
    }
}

} // verus!
