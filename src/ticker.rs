//! The decisions of a repeater's background loop.
//!
//! Each round of the loop checks the cancellation flag; if it is set the
//! loop ends, otherwise it sleeps for one interval, invokes the callback
//! with the current tick and counts the tick up by one. `TickLoop` makes
//! that decision for one round at a time: whoever drives it hands in what
//! the flag read, and performs the sleep and the invocation it asks for.
use vstd::prelude::*;

verus! {

/// The tick handed to the invocation with zero-based index `k`: `k` itself,
/// wrapped to the width of `u32`.
pub open spec fn tick_of(k: nat) -> u32 {
    (k % 0x1_0000_0000) as u32
}

/// The time after start, in the loop's own units, at which the invocation
/// with zero-based index `k` is made when sleeping is exact and the
/// callback takes no time: after `k + 1` full intervals.
pub open spec fn fire_time(interval: nat, k: nat) -> nat {
    (k + 1) * interval
}

/// What one round of the loop asks its driver to do.
#[derive(PartialEq, Eq, Structural, Debug, Clone, Copy)]
pub enum Step {
    /// The flag was seen set: leave the loop and end the background unit.
    Exit,
    /// Sleep for `sleep_ms`, then invoke the callback with `tick`.
    Fire { sleep_ms: u64, tick: u32 },
}

/// The abstract state of the loop.
pub ghost struct LoopModel {
    /// The interval, fixed at construction.
    pub interval_ms: u64,
    /// How many invocations have been asked for so far.
    pub fired: nat,
    /// Whether the loop has seen the flag set and ended.
    pub stopped: bool,
}

impl LoopModel {
    /// The state of a loop that has just been created.
    pub open spec fn start(interval_ms: u64) -> LoopModel {
        LoopModel { interval_ms, fired: 0, stopped: false }
    }

    /// What a round does when the flag reads `cancelled`.
    pub open spec fn action(self, cancelled: bool) -> Step {
        if self.stopped || cancelled {
            Step::Exit
        } else {
            Step::Fire { sleep_ms: self.interval_ms, tick: tick_of(self.fired) }
        }
    }

    /// The state after a round in which the flag reads `cancelled`.
    pub open spec fn next(self, cancelled: bool) -> LoopModel {
        if self.stopped || cancelled {
            LoopModel { stopped: true, ..self }
        } else {
            LoopModel { fired: self.fired + 1, ..self }
        }
    }

    /// The ticks handed to the callback so far, in order.
    pub open spec fn delivered(self) -> Seq<u32> {
        Seq::new(self.fired, |k: int| tick_of(k as nat))
    }

    /// The state after rounds whose flag checks read `checks`, in order.
    pub open spec fn run(self, checks: Seq<bool>) -> LoopModel
        decreases checks.len(),
    {
        if checks.len() == 0 {
            self
        } else {
            self.next(checks[0]).run(checks.drop_first())
        }
    }

    /// The ticks handed to the callback during those rounds, in order.
    pub open spec fn ticks_of_run(self, checks: Seq<bool>) -> Seq<u32>
        decreases checks.len(),
    {
        if checks.len() == 0 {
            Seq::empty()
        } else {
            let rest = self.next(checks[0]).ticks_of_run(checks.drop_first());
            match self.action(checks[0]) {
                Step::Fire { tick, .. } => seq![tick] + rest,
                Step::Exit => rest,
            }
        }
    }
}

/// Over any rounds, the ticks handed out continue the ticks delivered
/// before without gap, repeat or reordering: together they are the ticks
/// of every invocation made by the end.
pub proof fn lemma_ticks_continue(m: LoopModel, checks: Seq<bool>)
    ensures
        m.delivered() + m.ticks_of_run(checks) == m.run(checks).delivered(),
    decreases checks.len(),
{
    if checks.len() == 0 {
        assert(m.delivered() + Seq::<u32>::empty() =~= m.delivered());
    } else {
        let n = m.next(checks[0]);
        lemma_ticks_continue(n, checks.drop_first());
        match m.action(checks[0]) {
            Step::Fire { tick, .. } => {
                assert(m.delivered().push(tick) =~= n.delivered());
                assert(m.delivered() + (seq![tick] + n.ticks_of_run(checks.drop_first()))
                    =~= n.delivered() + n.ticks_of_run(checks.drop_first()));
            },
            Step::Exit => {
                assert(m.delivered() =~= n.delivered());
            },
        }
    }
}

/// Started fresh, a loop hands the callback the ticks 0, 1, 2, ..., n - 1,
/// one for each of its n invocations, each tick equal to its index until
/// the counter wraps.
pub proof fn lemma_ticks_in_order(interval_ms: u64, checks: Seq<bool>)
    ensures
        LoopModel::start(interval_ms).ticks_of_run(checks) == Seq::new(
            LoopModel::start(interval_ms).run(checks).fired,
            |k: int| tick_of(k as nat),
        ),
        forall|k: nat| k < 0x1_0000_0000 ==> #[trigger] tick_of(k) as nat == k,
{
    let m = LoopModel::start(interval_ms);
    lemma_ticks_continue(m, checks);
    assert(m.delivered() =~= Seq::<u32>::empty());
    assert(m.delivered() + m.ticks_of_run(checks) =~= m.ticks_of_run(checks));
    assert forall|k: nat| k < 0x1_0000_0000 implies #[trigger] tick_of(k) as nat == k by {
        assert(k % 0x1_0000_0000 == k) by (nonlinear_arith)
            requires
                k < 0x1_0000_0000,
        ;
    }
}

/// A loop whose next flag check sees the flag set makes no further
/// invocation: in particular, cancelling before the first check of a fresh
/// loop means the callback is never invoked.
pub proof fn lemma_cancelled_at_check(m: LoopModel, checks: Seq<bool>)
    requires
        checks.len() > 0,
        checks[0],
    ensures
        m.ticks_of_run(checks).len() == 0,
        m.run(checks).stopped,
        m.run(checks).fired == m.fired,
{
    lemma_silent_after_exit(m.next(checks[0]), checks.drop_first());
}

/// A loop that has ended makes no further invocation, whatever the flag
/// reads afterwards, and its state no longer changes.
pub proof fn lemma_silent_after_exit(m: LoopModel, checks: Seq<bool>)
    requires
        m.stopped,
    ensures
        m.ticks_of_run(checks).len() == 0,
        m.run(checks) == m,
    decreases checks.len(),
{
    if checks.len() > 0 {
        assert(m.next(checks[0]) == m);
        lemma_silent_after_exit(m, checks.drop_first());
    }
}

/// With an interval `d > 0` and exact sleeping, the invocations made by
/// time `t` after start are exactly those with index below `t / d`: there
/// are `floor(t / d)` of them.
pub proof fn lemma_invocations_by_time(d: nat, t: nat)
    requires
        d > 0,
    ensures
        forall|k: nat| #[trigger] fire_time(d, k) <= t <==> k < t / d,
{
    assert forall|k: nat| #[trigger] fire_time(d, k) <= t <==> k < t / d by {
        let q = t / d;
        assert(t == q * d + t % d && 0 <= t % d < d) by {
            vstd::arithmetic::div_mod::lemma_fundamental_div_mod(t as int, d as int);
        }
        if k < q {
            assert((k + 1) * d <= q * d) by (nonlinear_arith)
                requires
                    k + 1 <= q,
            ;
        } else {
            assert((k + 1) * d >= (q + 1) * d) by (nonlinear_arith)
                requires
                    k >= q,
            ;
            assert((q + 1) * d == q * d + d) by (nonlinear_arith);
        }
    }
}

/// The background loop of a repeater, one round at a time.
pub struct TickLoop {
    interval_ms: u64,
    tick: u32,
    stopped: bool,
    fired: Ghost<nat>,
}

impl View for TickLoop {
    type V = LoopModel;

    closed spec fn view(&self) -> LoopModel {
        LoopModel { interval_ms: self.interval_ms, fired: self.fired@, stopped: self.stopped }
    }
}

impl TickLoop {
    /// The counter agrees with the number of invocations made.
    pub closed spec fn wf(&self) -> bool {
        self.tick == tick_of(self.fired@)
    }

    /// A loop that sleeps `interval_ms` before each invocation, with the
    /// tick counter at zero.
    pub fn new(interval_ms: u64) -> (r: TickLoop)
        ensures
            r.wf(),
            r@ == LoopModel::start(interval_ms),
    {
        TickLoop { interval_ms, tick: 0, stopped: false, fired: Ghost(0) }
    }

    /// One round: `cancelled` is what the cancellation flag read at its
    /// top. Once the loop has ended it stays ended.
    pub fn step(&mut self, cancelled: bool) -> (r: Step)
        requires
            old(self).wf(),
        ensures
            final(self).wf(),
            final(self)@ == old(self)@.next(cancelled),
            r == old(self)@.action(cancelled),
    {
        if self.stopped || cancelled {
            self.stopped = true;
            Step::Exit
        } else {
            let tick = self.tick;
            proof {
                let k = self.fired@;
                assert(((k % 0x1_0000_0000) + 1) % 0x1_0000_0000 == (k + 1) % 0x1_0000_0000)
                    by (nonlinear_arith);
            }
            self.tick = self.tick.wrapping_add(1);
            self.fired = Ghost(self.fired@ + 1);
            Step::Fire { sleep_ms: self.interval_ms, tick }
        }
    }

    /// Whether the loop has seen the flag set and ended.
    pub fn is_stopped(&self) -> (r: bool)
        ensures
            r == self@.stopped,
    {
        self.stopped
    }
}

} // verus!
