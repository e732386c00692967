//! The retry layer: operations that are safe to repeat are called again,
//! after the delay that a backoff schedule gives, while they fail with a
//! retryable error and the schedule has a delay left.
//!
//! The layer decides; it neither calls the inner accessor nor sleeps. One
//! call of an operation is a [`RetryCall`]: the caller reports what happened
//! as an [`Event`] and carries out the [`Action`] it gets back.

use vstd::prelude::*;

use crate::accessor::AccessorMetadata;
use crate::accessor::AccessorMetadataView;
use crate::error::ErrorKind;
use crate::error::Operation;
use crate::layers::backoff::Backoff;
use crate::layers::backoff::BackoffPolicy;
use crate::layers::backoff::Delay;
use crate::layers::layer::Layer;

verus! {

/// Whether an operation may be called again after it failed.
///
/// `write` and `write_multipart` may not: the reader they consume cannot be
/// rewound, so a second call would send a truncated body. `presign` and
/// `metadata` compute locally.
pub open spec fn retryable_operation(op: Operation) -> bool {
    match op {
        Operation::Create
        | Operation::Read
        | Operation::Stat
        | Operation::Delete
        | Operation::List
        | Operation::CreateMultipart
        | Operation::CompleteMultipart
        | Operation::AbortMultipart => true,
        Operation::Write
        | Operation::WriteMultipart
        | Operation::Presign
        | Operation::Metadata => false,
    }
}

/// Whether an error of `kind` is transient: only `Interrupted` is.
pub open spec fn retryable_kind(kind: ErrorKind) -> bool {
    kind == ErrorKind::Interrupted
}

/// Whether `op`, having failed with an error of `kind`, is to be tried again
/// if the schedule allows.
pub open spec fn should_retry(op: Operation, kind: ErrorKind) -> bool {
    retryable_operation(op) && retryable_kind(kind)
}

/// Tests whether an operation may be called again after it failed.
pub fn is_retryable_operation(op: Operation) -> (r: bool)
    ensures
        r == retryable_operation(op),
{
    match op {
        Operation::Create
        | Operation::Read
        | Operation::Stat
        | Operation::Delete
        | Operation::List
        | Operation::CreateMultipart
        | Operation::CompleteMultipart
        | Operation::AbortMultipart => true,
        Operation::Write
        | Operation::WriteMultipart
        | Operation::Presign
        | Operation::Metadata => false,
    }
}

/// Tests whether `op`, having failed with an error of `kind`, is to be tried
/// again if the schedule allows.
pub fn wants_retry(op: Operation, kind: ErrorKind) -> (r: bool)
    ensures
        r == should_retry(op, kind),
{
    is_retryable_operation(op) && kind == ErrorKind::Interrupted
}

/// Where one call of an operation stands.
#[derive(Clone, Copy, Debug, PartialEq, Eq, Structural)]
pub enum Phase {
    /// Nothing has happened yet.
    Idle,
    /// The inner accessor is being called.
    Attempting,
    /// The call waits before the next attempt.
    Waiting,
    /// The inner accessor succeeded. Terminal.
    Success,
    /// The last error of the inner accessor is the result. Terminal.
    Failure,
}

/// What the caller reports.
#[derive(Clone, Copy, Debug, PartialEq, Eq, Structural)]
pub enum Event {
    /// The operation was called on the layer.
    Start,
    /// The inner accessor returned a value.
    Succeeded,
    /// The inner accessor returned an error of this kind.
    Failed(ErrorKind),
    /// The wait is over.
    Woke,
}

/// What the caller is to do next.
#[derive(Clone, Copy, Debug, PartialEq, Eq, Structural)]
pub enum Action {
    /// Call the inner accessor with the arguments as they were given.
    Call,
    /// Wait this long, then report `Woke`.
    Sleep(Delay),
    /// Return what the inner accessor returned last, unchanged.
    Return,
    /// The event does not fit the phase: nothing changed, nothing to do.
    Stay,
}

/// An [`Action`] with its delay in nanoseconds.
pub enum Step {
    Call,
    Sleep(nat),
    Return,
    Stay,
}

impl View for Action {
    type V = Step;

    open spec fn view(&self) -> Step {
        match *self {
            Action::Call => Step::Call,
            Action::Sleep(d) => Step::Sleep(d@),
            Action::Return => Step::Return,
            Action::Stay => Step::Stay,
        }
    }
}

/// One call of an operation, as plain values.
pub struct CallState {
    pub op: Operation,
    pub phase: Phase,
    /// The delays, in nanoseconds, that the schedule has yet to yield.
    pub pending: Seq<nat>,
}

/// The state of a call of `op` on which nothing has happened yet.
pub open spec fn idle(op: Operation, pending: Seq<nat>) -> CallState {
    CallState { op, phase: Phase::Idle, pending }
}

/// The state machine of one call: the state after `event`, and what the
/// caller is to do.
///
/// The schedule is advanced only when a retryable operation fails with a
/// retryable error. If it then has nothing left, the call fails with that
/// error.
pub open spec fn transition(s: CallState, event: Event) -> (CallState, Step) {
    match (s.phase, event) {
        (Phase::Idle, Event::Start) => (CallState { phase: Phase::Attempting, ..s }, Step::Call),
        (Phase::Attempting, Event::Succeeded) => (
            CallState { phase: Phase::Success, ..s },
            Step::Return,
        ),
        (Phase::Attempting, Event::Failed(kind)) => {
            if should_retry(s.op, kind) && s.pending.len() > 0 {
                (
                    CallState { phase: Phase::Waiting, pending: s.pending.drop_first(), ..s },
                    Step::Sleep(s.pending[0]),
                )
            } else {
                (CallState { phase: Phase::Failure, ..s }, Step::Return)
            }
        },
        (Phase::Waiting, Event::Woke) => (CallState { phase: Phase::Attempting, ..s }, Step::Call),
        _ => (s, Step::Stay),
    }
}

/// One call of an operation through the retry layer, with its own
/// schedule.
pub struct RetryCall<S: Backoff> {
    op: Operation,
    phase: Phase,
    schedule: S,
}

impl<S: Backoff> View for RetryCall<S> {
    type V = CallState;

    closed spec fn view(&self) -> CallState {
        CallState { op: self.op, phase: self.phase, pending: self.schedule.pending() }
    }
}

impl<S: Backoff> RetryCall<S> {
    /// A call of `op` on which nothing has happened yet, with its own
    /// schedule.
    pub fn new(op: Operation, schedule: S) -> (c: Self)
        ensures
            c@ == idle(op, schedule.pending()),
    {
        RetryCall { op, phase: Phase::Idle, schedule }
    }

    pub fn operation(&self) -> (op: Operation)
        ensures
            op == self@.op,
    {
        self.op
    }

    pub fn phase(&self) -> (p: Phase)
        ensures
            p == self@.phase,
    {
        self.phase
    }

    /// Whether the call has ended, in success or in failure.
    pub fn is_finished(&self) -> (r: bool)
        ensures
            r == (self@.phase == Phase::Success || self@.phase == Phase::Failure),
    {
        self.phase == Phase::Success || self.phase == Phase::Failure
    }

    /// Takes `event` in and says what to do next.
    pub fn step(&mut self, event: Event) -> (action: Action)
        ensures
            (final(self)@, action@) == transition(old(self)@, event),
    {
        match (self.phase, event) {
            (Phase::Idle, Event::Start) => {
                self.phase = Phase::Attempting;
                Action::Call
            },
            (Phase::Attempting, Event::Succeeded) => {
                self.phase = Phase::Success;
                Action::Return
            },
            (Phase::Attempting, Event::Failed(kind)) => {
                if wants_retry(self.op, kind) {
                    match self.schedule.next_delay() {
                        Some(delay) => {
                            self.phase = Phase::Waiting;
                            Action::Sleep(delay)
                        },
                        None => {
                            self.phase = Phase::Failure;
                            Action::Return
                        },
                    }
                } else {
                    self.phase = Phase::Failure;
                    Action::Return
                }
            },
            (Phase::Waiting, Event::Woke) => {
                self.phase = Phase::Attempting;
                Action::Call
            },
            _ => Action::Stay,
        }
    }
}

/// What one call of the inner accessor came to.
#[derive(Clone, Copy, Debug, PartialEq, Eq, Structural)]
pub enum Outcome {
    Succeeded,
    Failed(ErrorKind),
}

/// The event by which the caller reports an outcome.
pub open spec fn event_of(outcome: Outcome) -> Event {
    match outcome {
        Outcome::Succeeded => Event::Succeeded,
        Outcome::Failed(kind) => Event::Failed(kind),
    }
}

/// The state in which a call that is attempting stands when the inner
/// accessor has answered `outcome` and a wait, if one was asked for, is over.
pub open spec fn after_attempt(s: CallState, outcome: Outcome) -> CallState {
    let answered = transition(s, event_of(outcome)).0;
    if answered.phase == Phase::Waiting {
        transition(answered, Event::Woke).0
    } else {
        answered
    }
}

/// How often the inner accessor is called from state `s` on, when its
/// answers are `outcomes`, in order, for as long as it is asked.
pub open spec fn inner_calls(s: CallState, outcomes: Seq<Outcome>) -> nat
    decreases outcomes.len(),
{
    if s.phase != Phase::Attempting || outcomes.len() == 0 {
        0
    } else {
        1 + inner_calls(after_attempt(s, outcomes[0]), outcomes.drop_first())
    }
}

/// The state that is reached from `s` when the inner accessor answers
/// `outcomes`, in order, for as long as it is asked.
pub open spec fn end_state(s: CallState, outcomes: Seq<Outcome>) -> CallState
    decreases outcomes.len(),
{
    if s.phase != Phase::Attempting || outcomes.len() == 0 {
        s
    } else {
        end_state(after_attempt(s, outcomes[0]), outcomes.drop_first())
    }
}

/// The delays for which the call waits from state `s` on, in order, when
/// the answers of the inner accessor are `outcomes`.
pub open spec fn waits(s: CallState, outcomes: Seq<Outcome>) -> Seq<nat>
    decreases outcomes.len(),
{
    if s.phase != Phase::Attempting || outcomes.len() == 0 {
        Seq::empty()
    } else {
        let rest = waits(after_attempt(s, outcomes[0]), outcomes.drop_first());
        match transition(s, event_of(outcomes[0])).1 {
            Step::Sleep(delay) => seq![delay] + rest,
            _ => rest,
        }
    }
}

/// The state of a call of `op` that has just been started.
pub open spec fn started(op: Operation, pending: Seq<nat>) -> CallState {
    transition(idle(op, pending), Event::Start).0
}

/// However the inner accessor answers, it is called at most once more than
/// the schedule has delays.
pub proof fn lemma_calls_bounded(op: Operation, pending: Seq<nat>, outcomes: Seq<Outcome>)
    ensures
        inner_calls(started(op, pending), outcomes) <= 1 + pending.len(),
    decreases outcomes.len(),
{
    let s = started(op, pending);
    if outcomes.len() > 0 {
        let next = after_attempt(s, outcomes[0]);
        if next.phase == Phase::Attempting {
            assert(next == started(op, pending.drop_first()));
            lemma_calls_bounded(op, pending.drop_first(), outcomes.drop_first());
        } else {
            lemma_no_call_when_finished(next, outcomes.drop_first());
        }
    }
}

/// A call that is not attempting does not call the inner accessor, does not
/// wait, and stays where it is.
pub proof fn lemma_no_call_when_finished(s: CallState, outcomes: Seq<Outcome>)
    requires
        s.phase != Phase::Attempting,
    ensures
        inner_calls(s, outcomes) == 0,
        waits(s, outcomes) == Seq::<nat>::empty(),
        end_state(s, outcomes) == s,
{
}

/// The call waits for the delays of the schedule, in order, as far as it
/// gets, and what it did not wait for is left in the schedule. A call that
/// has ended has waited once between each call of the inner accessor and the
/// next, and at no other time.
pub proof fn lemma_waits_follow_schedule(op: Operation, pending: Seq<nat>, outcomes: Seq<Outcome>)
    requires
        outcomes.len() > 0,
    ensures
        waits(started(op, pending), outcomes) + end_state(started(op, pending), outcomes).pending
            == pending,
        end_state(started(op, pending), outcomes).phase != Phase::Attempting ==> waits(
            started(op, pending),
            outcomes,
        ).len() + 1 == inner_calls(started(op, pending), outcomes),
    decreases outcomes.len(),
{
    let s = started(op, pending);
    let next = after_attempt(s, outcomes[0]);
    let rest = outcomes.drop_first();
    if next.phase == Phase::Attempting {
        assert(next == started(op, pending.drop_first()));
        if rest.len() > 0 {
            lemma_waits_follow_schedule(op, pending.drop_first(), rest);
            assert(waits(s, outcomes) + end_state(s, outcomes).pending =~= seq![pending[0]] + (
            waits(next, rest) + end_state(next, rest).pending));
            assert(seq![pending[0]] + pending.drop_first() =~= pending);
        } else {
            assert(waits(s, outcomes) =~= seq![pending[0]]);
            assert(seq![pending[0]] + pending.drop_first() =~= pending);
        }
    } else {
        lemma_no_call_when_finished(next, rest);
        assert(waits(s, outcomes) + pending =~= pending);
    }
}

/// When the first answer of the inner accessor is an error that is not
/// retryable, the inner accessor is called exactly once, and the call fails.
pub proof fn lemma_other_error_calls_once(
    op: Operation,
    pending: Seq<nat>,
    outcomes: Seq<Outcome>,
    kind: ErrorKind,
)
    requires
        outcomes.len() > 0,
        outcomes[0] == Outcome::Failed(kind),
        kind != ErrorKind::Interrupted,
    ensures
        inner_calls(started(op, pending), outcomes) == 1,
        end_state(started(op, pending), outcomes).phase == Phase::Failure,
        end_state(started(op, pending), outcomes).pending == pending,
{
    let next = after_attempt(started(op, pending), outcomes[0]);
    lemma_no_call_when_finished(next, outcomes.drop_first());
}

/// An operation that may not be repeated (`write` and `write_multipart`
/// among them) calls the inner accessor exactly once, whatever it answers,
/// and leaves the schedule untouched.
pub proof fn lemma_unrepeatable_calls_once(
    op: Operation,
    pending: Seq<nat>,
    outcomes: Seq<Outcome>,
)
    requires
        !retryable_operation(op),
        outcomes.len() > 0,
    ensures
        inner_calls(started(op, pending), outcomes) == 1,
        end_state(started(op, pending), outcomes).pending == pending,
        end_state(started(op, pending), outcomes).phase == match outcomes[0] {
            Outcome::Succeeded => Phase::Success,
            Outcome::Failed(_) => Phase::Failure,
        },
{
    let next = after_attempt(started(op, pending), outcomes[0]);
    lemma_no_call_when_finished(next, outcomes.drop_first());
}

/// When the inner accessor succeeds at its first answer, it is called once
/// and the call succeeds.
pub proof fn lemma_success_calls_once(op: Operation, pending: Seq<nat>, outcomes: Seq<Outcome>)
    requires
        outcomes.len() > 0,
        outcomes[0] == Outcome::Succeeded,
    ensures
        inner_calls(started(op, pending), outcomes) == 1,
        end_state(started(op, pending), outcomes).phase == Phase::Success,
{
    let next = after_attempt(started(op, pending), outcomes[0]);
    lemma_no_call_when_finished(next, outcomes.drop_first());
}

/// When a retryable operation meets a retryable error at every answer, the
/// inner accessor is called once and then once for each delay of the
/// schedule, and the call fails with the schedule used up.
pub proof fn lemma_interrupted_uses_schedule(
    op: Operation,
    pending: Seq<nat>,
    outcomes: Seq<Outcome>,
)
    requires
        retryable_operation(op),
        outcomes.len() > pending.len(),
        forall|i: int|
            0 <= i < outcomes.len() ==> outcomes[i] == Outcome::Failed(ErrorKind::Interrupted),
    ensures
        inner_calls(started(op, pending), outcomes) == 1 + pending.len(),
        end_state(started(op, pending), outcomes).phase == Phase::Failure,
        end_state(started(op, pending), outcomes).pending.len() == 0,
    decreases pending.len(),
{
    let s = started(op, pending);
    let next = after_attempt(s, outcomes[0]);
    if pending.len() > 0 {
        assert(next == started(op, pending.drop_first()));
        lemma_interrupted_uses_schedule(op, pending.drop_first(), outcomes.drop_first());
    } else {
        lemma_no_call_when_finished(next, outcomes.drop_first());
    }
}

/// The retry layer: gives each call of an operation a fresh schedule of its
/// policy.
#[derive(Clone, Copy, Debug)]
pub struct RetryLayer<B: BackoffPolicy> {
    policy: B,
}

impl<B: BackoffPolicy> RetryLayer<B> {
    /// The policy from which each call takes its schedule.
    pub closed spec fn spec_policy(self) -> B {
        self.policy
    }

    /// Create a new retry layer.
    pub fn new(b: B) -> (layer: Self)
        ensures
            layer.spec_policy() == b,
    {
        RetryLayer { policy: b }
    }

    pub fn policy(&self) -> (p: &B)
        ensures
            *p == self.spec_policy(),
    {
        &self.policy
    }

    /// Begins one call of `op`: nothing has happened yet, and the whole
    /// schedule of the policy lies ahead, whatever earlier calls used up.
    pub fn begin(&self, op: Operation) -> (call: RetryCall<B::Schedule>)
        ensures
            call@ == idle(op, self.spec_policy().delays()),
    {
        RetryCall::new(op, self.policy.schedule())
    }
}

impl<B: BackoffPolicy> Layer for RetryLayer<B> {
    /// The retry layer changes nothing in what the accessor says of itself.
    open spec fn wrapped(&self, inner: AccessorMetadataView) -> AccessorMetadataView {
        inner
    }

    /// The retry layer changes nothing in what the accessor says of itself.
    fn metadata(&self, inner: AccessorMetadata) -> (outer: AccessorMetadata)
        ensures
            outer@ == inner@,
    {
        inner
    }
}

} // verus!
