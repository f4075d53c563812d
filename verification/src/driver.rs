//! The request driver: the task that, once per process lifetime,
//! subscribes to the topic, publishes ten sequentially numbered
//! messages at a one-second pace, and then idles through a cool-down
//! window.  The driver is a state machine: `next_action` says what to
//! do in a state, the runtime performs it (a handle call or a sleep)
//! and feeds the outcome to `advance`.  A `Closed` outcome — the event
//! loop side is gone — is fatal to the driver alone.

use vstd::prelude::*;
use crate::config::Qos;
use crate::payload::{payload_chars, sequence_payload, topic, topic_chars};

verus! {

/// How many messages one run publishes.
pub const MESSAGE_COUNT: u64 = 10;

/// Seconds slept between two publications.
pub const PACE_SECS: u64 = 1;

/// Seconds the driver idles after the last publication before it ends.
pub const COOLDOWN_SECS: u64 = 120;

/// Where the driver stands in its single run.
#[derive(Clone, Copy, PartialEq, Eq, Structural, Debug)]
pub enum DriverState {
    /// Nothing issued yet; the subscription comes first.
    Start,
    /// The subscription was accepted; message `next` is due.
    Publishing { next: u64 },
    /// Message `sent` was accepted; one pacing sleep is due.
    Pacing { sent: u64 },
    /// All messages are out; the idle window is due.
    Cooldown,
    /// The run ended normally.
    Done,
    /// A handle call failed with `Closed`; the task ends here.
    Failed,
}

/// What the driver asks the runtime to do in a state.
#[derive(Clone, PartialEq, Eq, Debug)]
pub enum DriverAction {
    Subscribe { topic: String, qos: Qos },
    Publish { topic: String, qos: Qos, retain: bool, payload: String },
    Sleep { secs: u64 },
    /// Terminal: nothing more to perform.
    Finish,
}

/// How the runtime reports a performed action: a handle call was
/// accepted into the queue, or failed because the event loop side was
/// dropped; a sleep elapsed.
#[derive(Clone, Copy, PartialEq, Eq, Structural, Debug)]
pub enum Outcome {
    Accepted,
    Closed,
    Elapsed,
}

/// The message numbers a state admits.
pub open spec fn wf(s: DriverState) -> bool {
    match s {
        DriverState::Publishing { next } => 1 <= next <= MESSAGE_COUNT,
        DriverState::Pacing { sent } => 1 <= sent <= MESSAGE_COUNT,
        _ => true,
    }
}

/// Which outcomes the runtime can report for a state's action: handle
/// calls are accepted or closed, sleeps elapse, terminal states have no
/// action to report on.
pub open spec fn fits(s: DriverState, o: Outcome) -> bool {
    match s {
        DriverState::Start => o is Accepted || o is Closed,
        DriverState::Publishing { .. } => o is Accepted || o is Closed,
        DriverState::Pacing { .. } => o is Elapsed,
        DriverState::Cooldown => o is Elapsed,
        DriverState::Done => false,
        DriverState::Failed => false,
    }
}

/// The transition relation of one run.
pub open spec fn spec_advance(s: DriverState, o: Outcome) -> DriverState {
    match s {
        DriverState::Start => if o is Closed {
            DriverState::Failed
        } else {
            DriverState::Publishing { next: 1 }
        },
        DriverState::Publishing { next } => if o is Closed {
            DriverState::Failed
        } else {
            DriverState::Pacing { sent: next }
        },
        DriverState::Pacing { sent } => if sent < MESSAGE_COUNT {
            DriverState::Publishing { next: (sent + 1) as u64 }
        } else {
            DriverState::Cooldown
        },
        DriverState::Cooldown => DriverState::Done,
        DriverState::Done => DriverState::Done,
        DriverState::Failed => DriverState::Failed,
    }
}

/// What the action of a state must be: the one subscription first, then
/// each due message to the same topic — at most once, not retained,
/// with the payload carrying its number — a one-second pacing sleep
/// after each, the cool-down sleep at the end, and nothing in the
/// terminal states.
pub open spec fn action_ok(s: DriverState, a: DriverAction) -> bool {
    match s {
        DriverState::Start => a matches DriverAction::Subscribe { topic, qos } && topic@
            == topic_chars() && qos == Qos::AtMostOnce,
        DriverState::Publishing { next } => a matches DriverAction::Publish {
            topic,
            qos,
            retain,
            payload,
        } && topic@ == topic_chars() && qos == Qos::AtMostOnce && retain == false && payload@
            == payload_chars(next as nat),
        DriverState::Pacing { .. } => a matches DriverAction::Sleep { secs } && secs == PACE_SECS,
        DriverState::Cooldown => a matches DriverAction::Sleep { secs } && secs == COOLDOWN_SECS,
        DriverState::Done => a is Finish,
        DriverState::Failed => a is Finish,
    }
}

/// The action due in state `s`.
pub fn next_action(s: &DriverState) -> (a: DriverAction)
    requires
        wf(*s),
    ensures
        action_ok(*s, a),
{
    match s {
        DriverState::Start => DriverAction::Subscribe { topic: topic(), qos: Qos::AtMostOnce },
        DriverState::Publishing { next } => DriverAction::Publish {
            topic: topic(),
            qos: Qos::AtMostOnce,
            retain: false,
            payload: sequence_payload(*next),
        },
        DriverState::Pacing { .. } => DriverAction::Sleep { secs: PACE_SECS },
        DriverState::Cooldown => DriverAction::Sleep { secs: COOLDOWN_SECS },
        DriverState::Done => DriverAction::Finish,
        DriverState::Failed => DriverAction::Finish,
    }
}

/// Whether a state is terminal: the run is over, nothing is performed.
pub fn is_finished(s: &DriverState) -> (b: bool)
    ensures
        b == (s is Done || s is Failed),
{
    match s {
        DriverState::Done => true,
        DriverState::Failed => true,
        _ => false,
    }
}

/// The state after one performed action.
pub fn advance(s: &DriverState, o: &Outcome) -> (n: DriverState)
    requires
        wf(*s),
        fits(*s, *o),
    ensures
        n == spec_advance(*s, *o),
        wf(n),
{
    match s {
        DriverState::Start => if matches!(o, Outcome::Closed) {
            DriverState::Failed
        } else {
            DriverState::Publishing { next: 1 }
        },
        DriverState::Publishing { next } => if matches!(o, Outcome::Closed) {
            DriverState::Failed
        } else {
            DriverState::Pacing { sent: *next }
        },
        DriverState::Pacing { sent } => if *sent < MESSAGE_COUNT {
            DriverState::Publishing { next: *sent + 1 }
        } else {
            DriverState::Cooldown
        },
        DriverState::Cooldown => DriverState::Done,
        DriverState::Done => DriverState::Done,
        DriverState::Failed => DriverState::Failed,
    }
}

// ---------------------------------------------------------------------
// The run model: a trace of states with the outcomes that linked them,
// and what holds of every such run.
// ---------------------------------------------------------------------

/// `tr` is the sequence of states of one run that performed the
/// outcomes `outs` in order, starting from `Start`.
pub open spec fn valid_run(tr: Seq<DriverState>, outs: Seq<Outcome>) -> bool {
    &&& tr.len() == outs.len() + 1
    &&& tr[0] == DriverState::Start
    &&& forall|i: int|
        0 <= i < outs.len() ==> fits(#[trigger] tr[i], outs[i]) && tr[i + 1] == spec_advance(
            tr[i],
            outs[i],
        )
}

/// No handle call of the run failed.
pub open spec fn no_closed(outs: Seq<Outcome>) -> bool {
    forall|i: int| 0 <= i < outs.len() ==> !(#[trigger] outs[i] is Closed)
}

/// A step that put one message into the queue.
pub open spec fn is_publish_step(s: DriverState, o: Outcome) -> bool {
    s is Publishing && o is Accepted
}

/// A step that completed one pacing sleep.
pub open spec fn is_pace_step(s: DriverState, o: Outcome) -> bool {
    s is Pacing && o is Elapsed
}

/// The sequence number a publishing state carries.
pub open spec fn publish_no(s: DriverState) -> u64 {
    match s {
        DriverState::Publishing { next } => next,
        _ => 0,
    }
}

/// The sequence numbers published in the first `k` steps, in order.
pub open spec fn published_upto(tr: Seq<DriverState>, outs: Seq<Outcome>, k: int) -> Seq<u64>
    decreases k,
{
    if k <= 0 {
        Seq::empty()
    } else if is_publish_step(tr[k - 1], outs[k - 1]) {
        published_upto(tr, outs, k - 1).push(publish_no(tr[k - 1]))
    } else {
        published_upto(tr, outs, k - 1)
    }
}

/// The seconds of pacing sleep completed in the first `k` steps.
pub open spec fn paced_upto(tr: Seq<DriverState>, outs: Seq<Outcome>, k: int) -> nat
    decreases k,
{
    if k <= 0 {
        0
    } else if is_pace_step(tr[k - 1], outs[k - 1]) {
        paced_upto(tr, outs, k - 1) + PACE_SECS as nat
    } else {
        paced_upto(tr, outs, k - 1)
    }
}

/// All sequence numbers a whole run published, in publication order.
pub open spec fn published(tr: Seq<DriverState>, outs: Seq<Outcome>) -> Seq<u64> {
    published_upto(tr, outs, outs.len() as int)
}

/// The seconds of pacing sleep a whole run completed.
pub open spec fn paced_secs(tr: Seq<DriverState>, outs: Seq<Outcome>) -> nat {
    paced_upto(tr, outs, outs.len() as int)
}

/// The consecutive numbers `1, 2, ..., n`.
pub open spec fn one_to(n: nat) -> Seq<u64> {
    Seq::new(n, |i: int| (i + 1) as u64)
}

/// How many messages a state has behind it.  A failed run's count is
/// not tracked: the run lemmas speak of runs with no failed call.
pub open spec fn pub_count(s: DriverState) -> nat {
    match s {
        DriverState::Start => 0,
        DriverState::Publishing { next } => (next - 1) as nat,
        DriverState::Pacing { sent } => sent as nat,
        DriverState::Cooldown => MESSAGE_COUNT as nat,
        DriverState::Done => MESSAGE_COUNT as nat,
        DriverState::Failed => 0,
    }
}

/// How many seconds of pacing sleep a state has behind it; as with
/// `pub_count`, a failed run's count is not tracked.
pub open spec fn pace_count(s: DriverState) -> nat {
    match s {
        DriverState::Start => 0,
        DriverState::Publishing { next } => (next - 1) as nat,
        DriverState::Pacing { sent } => (sent - 1) as nat,
        DriverState::Cooldown => MESSAGE_COUNT as nat,
        DriverState::Done => MESSAGE_COUNT as nat,
        DriverState::Failed => 0,
    }
}

proof fn lemma_run_invariant(tr: Seq<DriverState>, outs: Seq<Outcome>, k: int)
    requires
        valid_run(tr, outs),
        no_closed(outs),
        0 <= k <= outs.len(),
    ensures
        wf(tr[k]),
        !(tr[k] is Failed),
        published_upto(tr, outs, k) =~= one_to(pub_count(tr[k])),
        paced_upto(tr, outs, k) == pace_count(tr[k]) * PACE_SECS,
    decreases k,
{
    if k > 0 {
        lemma_run_invariant(tr, outs, k - 1);
        let s = tr[k - 1];
        let o = outs[k - 1];
        assert(fits(s, o) && tr[k] == spec_advance(s, o));
        assert(!(o is Closed));
        assert(published_upto(tr, outs, k) =~= one_to(pub_count(tr[k])));
    }
}

/// In a run with no failed handle call, the payload numbers published
/// are exactly `1, 2, ..., pub_count` in that order — strictly
/// increasing, without gaps or repeats — never more than the message
/// count; and a run whose last state reached the cool-down window or
/// beyond published all of `1, ..., 10`.
pub proof fn lemma_publish_sequence(tr: Seq<DriverState>, outs: Seq<Outcome>)
    requires
        valid_run(tr, outs),
        no_closed(outs),
    ensures
        published(tr, outs) == one_to(pub_count(tr.last())),
        pub_count(tr.last()) <= MESSAGE_COUNT,
        tr.last() is Cooldown || tr.last() is Done ==> published(tr, outs) == one_to(
            MESSAGE_COUNT as nat,
        ),
{
    lemma_run_invariant(tr, outs, outs.len() as int);
    assert(tr.last() == tr[outs.len() as int]);
}

/// Pacing: before the idle window begins, a run that published its
/// messages has slept at least one pace between consecutive messages —
/// no fewer than `MESSAGE_COUNT - 1` paced seconds in all.
pub proof fn lemma_pacing(tr: Seq<DriverState>, outs: Seq<Outcome>)
    requires
        valid_run(tr, outs),
        no_closed(outs),
        tr.last() is Cooldown || tr.last() is Done,
    ensures
        paced_secs(tr, outs) >= (MESSAGE_COUNT - 1) * PACE_SECS,
{
    lemma_run_invariant(tr, outs, outs.len() as int);
    assert(tr.last() == tr[outs.len() as int]);
}

/// A `Closed` outcome of either handle call is fatal to the driver:
/// the run moves to `Failed`, whose only action is to finish — the
/// task ends rather than hang on further requests.
pub proof fn lemma_closed_is_fatal(s: DriverState, o: Outcome)
    requires
        wf(s),
        fits(s, o),
        o is Closed,
    ensures
        spec_advance(s, o) is Failed,
        forall|a: DriverAction| action_ok(spec_advance(s, o), a) ==> a is Finish,
{
}

} // verus!
