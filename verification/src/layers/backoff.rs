//! Backoff schedules: how long to wait before each further attempt.

use vstd::prelude::*;

verus! {

/// A span of time to wait, exact to the nanosecond.
#[derive(Clone, Copy, Debug, PartialEq, Eq, Structural)]
pub struct Delay {
    secs: u64,
    subsec_nanos: u32,
}

/// The nanoseconds that `secs` whole seconds and `subsec_nanos` more make.
pub open spec fn nanos_of(secs: u64, subsec_nanos: u32) -> nat {
    (secs as nat) * 1_000_000_000 + (subsec_nanos as nat)
}

impl View for Delay {
    type V = nat;

    /// The delay in nanoseconds.
    closed spec fn view(&self) -> nat {
        nanos_of(self.secs, self.subsec_nanos)
    }
}

impl Delay {
    /// The fractional part is less than a second.
    #[verifier::type_invariant]
    closed spec fn wf(self) -> bool {
        self.subsec_nanos < 1_000_000_000
    }

    pub fn from_secs(secs: u64) -> (d: Self)
        ensures
            d@ == secs * 1_000_000_000,
    {
        Delay { secs, subsec_nanos: 0 }
    }

    pub fn from_millis(millis: u64) -> (d: Self)
        ensures
            d@ == millis * 1_000_000,
    {
        let rest: u64 = millis % 1_000;
        let d = Delay { secs: millis / 1_000, subsec_nanos: (rest * 1_000_000) as u32 };
        assert(d@ == millis * 1_000_000) by (nonlinear_arith)
            requires
                d@ == (millis / 1_000) as nat * 1_000_000_000 + ((millis % 1_000) * 1_000_000) as nat,
        ;
        d
    }

    pub fn from_micros(micros: u64) -> (d: Self)
        ensures
            d@ == micros * 1_000,
    {
        let rest: u64 = micros % 1_000_000;
        let d = Delay { secs: micros / 1_000_000, subsec_nanos: (rest * 1_000) as u32 };
        assert(d@ == micros * 1_000) by (nonlinear_arith)
            requires
                d@ == (micros / 1_000_000) as nat * 1_000_000_000 + ((micros % 1_000_000)
                    * 1_000) as nat,
        ;
        d
    }

    pub fn from_nanos(nanos: u64) -> (d: Self)
        ensures
            d@ == nanos,
    {
        let rest: u64 = nanos % 1_000_000_000;
        let d = Delay { secs: nanos / 1_000_000_000, subsec_nanos: rest as u32 };
        assert(d@ == nanos) by (nonlinear_arith)
            requires
                d@ == (nanos / 1_000_000_000) as nat * 1_000_000_000 + (nanos
                    % 1_000_000_000) as nat,
        ;
        d
    }

    /// The whole seconds of the delay.
    pub fn as_secs(&self) -> (s: u64)
        ensures
            s == self@ / 1_000_000_000,
    {
        proof {
            use_type_invariant(self);
            let n = self.subsec_nanos;
            let s = self.secs;
            assert((s as nat * 1_000_000_000 + n as nat) / 1_000_000_000 == s) by (nonlinear_arith)
                requires
                    n < 1_000_000_000,
            ;
        }
        self.secs
    }

    /// The nanoseconds of the delay beyond its whole seconds.
    pub fn subsec_nanos(&self) -> (n: u32)
        ensures
            n == self@ % 1_000_000_000,
            n < 1_000_000_000,
    {
        proof {
            use_type_invariant(self);
            let n = self.subsec_nanos;
            let s = self.secs;
            assert((s as nat * 1_000_000_000 + n as nat) % 1_000_000_000 == n) by (nonlinear_arith)
                requires
                    n < 1_000_000_000,
            ;
        }
        self.subsec_nanos
    }
}

impl Delay {
    /// The delay of `secs` whole seconds and `subsec_nanos` nanoseconds.
    pub(crate) fn from_parts(secs: u64, subsec_nanos: u32) -> (d: Self)
        requires
            subsec_nanos < 1_000_000_000,
        ensures
            d@ == nanos_of(secs, subsec_nanos),
    {
        Delay { secs, subsec_nanos }
    }

    /// The delay of `secs` whole seconds and `subsec_nanos` nanoseconds
    /// beyond them, if those are less than a second.
    pub fn new(secs: u64, subsec_nanos: u32) -> (d: Option<Self>)
        ensures
            d is Some == (subsec_nanos < 1_000_000_000),
            d is Some ==> d->Some_0@ == nanos_of(secs, subsec_nanos),
    {
        if subsec_nanos < 1_000_000_000 {
            Some(Delay { secs, subsec_nanos })
        } else {
            None
        }
    }
}

/// A schedule of delays for one call of an operation: how long to wait
/// before each further attempt. When none is left, the call gives up.
///
/// The retry layer asks nothing else of a schedule: constant, exponential
/// or drawn at random, it only consumes the delays.
pub trait Backoff: Sized {
    /// The delays yet to come, in nanoseconds, in order.
    spec fn pending(&self) -> Seq<nat>;

    /// Takes the next delay, or answers `None` when the schedule is used up.
    fn next_delay(&mut self) -> (r: Option<Delay>)
        ensures
            old(self).pending().len() == 0 ==> r is None && final(self).pending() == old(
                self,
            ).pending(),
            old(self).pending().len() > 0 ==> r is Some && r->Some_0@ == old(self).pending()[0]
                && final(self).pending() == old(self).pending().drop_first(),
    ;
}

/// A policy from which every call of an operation takes a fresh schedule,
/// whatever earlier calls used up.
pub trait BackoffPolicy: Sized {
    type Schedule: Backoff;

    /// The delays of a fresh schedule, in nanoseconds, in order.
    spec fn delays(&self) -> Seq<nat>;

    /// A fresh schedule.
    fn schedule(&self) -> (s: Self::Schedule)
        ensures
            s.pending() == self.delays(),
    ;
}

/// The iterator of `backon` that yields one fixed delay a limited number of
/// times.
#[verifier::external_type_specification]
#[verifier::external_body]
pub struct ExConstantBackoff(backon::ConstantBackoff);

/// The delays, in nanoseconds, that a backoff has yet to yield, in order.
pub uninterp spec fn pending_delays(b: backon::ConstantBackoff) -> Seq<nat>;

/// Whether a backoff was made with a limit on its number of delays and
/// without jitter, so that what it yields is fixed in advance.
pub uninterp spec fn is_fixed(b: backon::ConstantBackoff) -> bool;

/// Builds the backoff of `backon` that yields the delay of `secs` seconds and
/// `subsec_nanos` nanoseconds `max_times` times.
///
/// Calls `ConstantBuilder::new`, `with_delay`, `with_max_times` and `build`.
/// The contract claims that the new backoff is fixed (the builder starts
/// without jitter, and a limit is set) and that it has yet to yield exactly
/// `max_times` copies of the delay.
#[verifier::external_body]
fn backon_constant(secs: u64, subsec_nanos: u32, max_times: usize) -> (b: backon::ConstantBackoff)
    requires
        subsec_nanos < 1_000_000_000,
    ensures
        is_fixed(b),
        pending_delays(b) == Seq::new(max_times as nat, |i: int| nanos_of(secs, subsec_nanos)),
{
    let delay = core::time::Duration::new(secs, subsec_nanos);
    let builder = backon::ConstantBuilder::new().with_delay(delay).with_max_times(max_times);
    backon::BackoffBuilder::build(builder)
}

/// Takes the next delay out of a fixed backoff, as seconds and nanoseconds
/// beyond them.
///
/// Calls `Iterator::next` of `backon::ConstantBackoff`. The contract claims
/// that a backoff with nothing left answers `None` and stays as it is, that
/// any other hands out its first pending delay and keeps the rest, and that
/// the call does not panic: without jitter it only compares and counts.
#[verifier::external_body]
fn backon_next(b: &mut backon::ConstantBackoff) -> (r: Option<(u64, u32)>)
    requires
        is_fixed(*old(b)),
    ensures
        is_fixed(*final(b)),
        pending_delays(*old(b)).len() == 0 ==> r is None && pending_delays(*final(b))
            == pending_delays(*old(b)),
        pending_delays(*old(b)).len() > 0 ==> r is Some && r->Some_0.1 < 1_000_000_000
            && nanos_of(r->Some_0.0, r->Some_0.1) == pending_delays(*old(b))[0]
            && pending_delays(*final(b)) == pending_delays(*old(b)).drop_first(),
    no_unwind
{
    b.next().map(|d| (d.as_secs(), d.subsec_nanos()))
}

/// A constant backoff: the same delay before each further attempt, for a
/// limited number of further attempts.
#[derive(Clone, Copy, Debug, PartialEq, Eq, Structural)]
pub struct ConstantPolicy {
    delay: Delay,
    max_times: usize,
}

impl ConstantPolicy {
    /// The delay before each further attempt.
    pub closed spec fn spec_delay(self) -> Delay {
        self.delay
    }

    /// How many further attempts the policy allows.
    pub closed spec fn spec_max_times(self) -> usize {
        self.max_times
    }

    /// The policy of `max_times` further attempts, each after `delay`.
    pub fn new(delay: Delay, max_times: usize) -> (p: Self)
        ensures
            p.spec_delay() == delay,
            p.spec_max_times() == max_times,
    {
        ConstantPolicy { delay, max_times }
    }

    /// The same policy with another delay.
    pub fn with_delay(self, delay: Delay) -> (p: Self)
        ensures
            p.spec_delay() == delay,
            p.spec_max_times() == self.spec_max_times(),
    {
        ConstantPolicy { delay, max_times: self.max_times }
    }

    /// The same policy with another number of further attempts.
    pub fn with_max_times(self, max_times: usize) -> (p: Self)
        ensures
            p.spec_delay() == self.spec_delay(),
            p.spec_max_times() == max_times,
    {
        ConstantPolicy { delay: self.delay, max_times }
    }

    pub fn delay(&self) -> (d: Delay)
        ensures
            d == self.spec_delay(),
    {
        self.delay
    }

    pub fn max_times(&self) -> (n: usize)
        ensures
            n == self.spec_max_times(),
    {
        self.max_times
    }
}

impl BackoffPolicy for ConstantPolicy {
    type Schedule = ConstantSchedule;

    /// `max_times` copies of the delay.
    open spec fn delays(&self) -> Seq<nat> {
        Seq::new(self.spec_max_times() as nat, |i: int| self.spec_delay()@)
    }

    fn schedule(&self) -> (s: ConstantSchedule) {
        proof {
            use_type_invariant(self.delay);
        }
        let inner = backon_constant(self.delay.secs, self.delay.subsec_nanos, self.max_times);
        assert(pending_delays(inner) =~= self.delays());
        ConstantSchedule { inner }
    }
}

impl Default for ConstantPolicy {
    /// Three further attempts, one second apart.
    fn default() -> (p: Self)
        ensures
            p.spec_delay()@ == 1_000_000_000,
            p.spec_max_times() == 3,
    {
        ConstantPolicy { delay: Delay::from_secs(1), max_times: 3 }
    }
}

/// The schedule of a [`ConstantPolicy`], kept by the `backon` crate.
pub struct ConstantSchedule {
    inner: backon::ConstantBackoff,
}

impl ConstantSchedule {
    #[verifier::type_invariant]
    closed spec fn fixed(self) -> bool {
        is_fixed(self.inner)
    }
}

impl Backoff for ConstantSchedule {
    closed spec fn pending(&self) -> Seq<nat> {
        pending_delays(self.inner)
    }

    fn next_delay(&mut self) -> (r: Option<Delay>) {
        proof {
            use_type_invariant(&*self);
        }
        match backon_next(&mut self.inner) {
            Some((secs, nanos)) => Some(Delay::from_parts(secs, nanos)),
            None => None,
        }
    }
}

/// The delays of `delays`, each in nanoseconds, in order.
pub open spec fn nanos_each(delays: Seq<Delay>) -> Seq<nat> {
    delays.map_values(|d: Delay| d@)
}

/// A backoff that is written out: the delay before each further attempt, in
/// order. Any finite schedule can be given in this way, whether its delays
/// grow, shrink or were drawn at random.
#[derive(Clone, Debug)]
pub struct ListedPolicy {
    delays: Vec<Delay>,
}

impl ListedPolicy {
    /// The delays as they were given.
    pub closed spec fn spec_delays(self) -> Seq<Delay> {
        self.delays@
    }

    /// The policy of one further attempt after each of `delays`, in order.
    pub fn new(delays: Vec<Delay>) -> (p: Self)
        ensures
            p.spec_delays() == delays@,
    {
        ListedPolicy { delays }
    }
}

impl BackoffPolicy for ListedPolicy {
    type Schedule = ListedSchedule;

    open spec fn delays(&self) -> Seq<nat> {
        nanos_each(self.spec_delays())
    }

    fn schedule(&self) -> (s: ListedSchedule) {
        let mut delays: Vec<Delay> = Vec::new();
        let mut i: usize = 0;
        while i < self.delays.len()
            invariant
                i <= self.delays.len(),
                delays@ == self.delays@.take(i as int),
            decreases self.delays.len() - i,
        {
            delays.push(self.delays[i]);
            assert(self.delays@.take(i + 1) =~= self.delays@.take(i as int).push(
                self.delays@[i as int],
            ));
            i = i + 1;
        }
        assert(self.delays@.take(self.delays.len() as int) =~= self.delays@);
        assert(delays@.skip(0) =~= delays@);
        ListedSchedule { delays, next: 0 }
    }
}

/// The schedule of a [`ListedPolicy`].
#[derive(Debug)]
pub struct ListedSchedule {
    delays: Vec<Delay>,
    next: usize,
}

impl ListedSchedule {
    #[verifier::type_invariant]
    closed spec fn in_bounds(self) -> bool {
        self.next <= self.delays@.len()
    }
}

impl Backoff for ListedSchedule {
    closed spec fn pending(&self) -> Seq<nat> {
        nanos_each(self.delays@.skip(self.next as int))
    }

    fn next_delay(&mut self) -> (r: Option<Delay>) {
        proof {
            use_type_invariant(&*self);
        }
        if self.next < self.delays.len() {
            let d = self.delays[self.next];
            proof {
                let rest = self.delays@.skip(self.next as int);
                assert(rest[0] == d);
                assert(rest.drop_first() =~= self.delays@.skip(self.next + 1));
                assert(nanos_each(rest).drop_first() =~= nanos_each(rest.drop_first()));
            }
            self.next = self.next + 1;
            Some(d)
        } else {
            None
        }
    }
}

} // verus!
