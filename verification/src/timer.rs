//! Countdown timers, as the game keeps them between frames.
//!
//! A timer counts elapsed nanoseconds toward a duration. A `Once` timer
//! stops at its duration and stays finished; a `Repeating` timer wraps
//! around, counting how many times it completed during the last tick.
//! The arithmetic of a tick is done by `bevy`'s `Timer`.

use vstd::prelude::*;
use bevy::reflect::GetField;
use std::time::Duration;
use vstd::arithmetic::div_mod::{lemma_fundamental_div_mod, lemma_fundamental_div_mod_converse, lemma_mod_pos_bound, lemma_small_mod};

verus! {

/// Whether a timer stops at its duration or starts over.
#[derive(Clone, Copy, Debug, PartialEq, Eq, Structural)]
pub enum TimerMode {
    Once,
    Repeating,
}

/// The mathematical state of a timer.
pub struct TimerView {
    pub duration: nat,
    pub elapsed: nat,
    pub mode: TimerMode,
    pub finished: bool,
    pub times_finished_this_tick: nat,
}

/// Number of distinct values of a `u32`: the count of completions that one
/// tick reports is taken modulo this.
pub open spec fn u32_modulus() -> nat {
    0x1_0000_0000
}

impl TimerView {
    /// The state after advancing by `delta` nanoseconds.
    pub open spec fn after_tick(self, delta: nat) -> TimerView {
        let total = self.elapsed + delta;
        if self.mode == TimerMode::Once && self.finished {
            TimerView { times_finished_this_tick: 0, ..self }
        } else if total >= self.duration {
            if self.mode == TimerMode::Repeating {
                let times = (total / self.duration) % u32_modulus();
                TimerView {
                    elapsed: (total - self.duration * times) as nat,
                    finished: true,
                    times_finished_this_tick: times,
                    ..self
                }
            } else {
                TimerView {
                    elapsed: self.duration,
                    finished: true,
                    times_finished_this_tick: 1,
                    ..self
                }
            }
        } else {
            TimerView { elapsed: total, finished: false, times_finished_this_tick: 0, ..self }
        }
    }

    /// The state after `n` ticks of `delta` nanoseconds each.
    pub open spec fn after_ticks(self, delta: nat, n: nat) -> TimerView
        decreases n,
    {
        if n == 0 {
            self
        } else {
            self.after_ticks(delta, (n - 1) as nat).after_tick(delta)
        }
    }

    /// What every timer of the game satisfies: a `Once` timer never runs
    /// past its duration, and sits exactly on it once finished.
    pub open spec fn well_formed(self) -> bool {
        self.mode == TimerMode::Once ==> {
            &&& self.elapsed <= self.duration
            &&& self.finished ==> self.elapsed == self.duration
        }
    }

    /// The preconditions of a tick by `delta`: a repeating timer needs a
    /// positive duration (the count of completions divides by it), and the
    /// running total must fit the nanosecond counter.
    pub open spec fn can_tick(self, delta: nat) -> bool {
        &&& self.mode == TimerMode::Repeating ==> self.duration > 0
        &&& self.elapsed + delta <= u64::MAX
    }
}

/// A finished `Once` timer stays finished, at the same elapsed time, however
/// far it is ticked, and reports no new completion.
pub proof fn lemma_once_stays_finished(t: TimerView, delta: nat)
    requires
        t.mode == TimerMode::Once,
        t.finished,
    ensures
        t.after_tick(delta).finished,
        t.after_tick(delta).elapsed == t.elapsed,
        t.after_tick(delta).times_finished_this_tick == 0,
{
}

/// Ticking a `Once` timer by `a` and then by `b` leaves it in the same
/// elapsed time and finished state as ticking it once by `a + b`.
pub proof fn lemma_once_split_ticks(t: TimerView, a: nat, b: nat)
    requires
        t.mode == TimerMode::Once,
        t.well_formed(),
    ensures
        t.after_tick(a).after_tick(b).elapsed == t.after_tick(a + b).elapsed,
        t.after_tick(a).after_tick(b).finished == t.after_tick(a + b).finished,
{
}

/// A tick keeps every timer well formed.
pub proof fn lemma_tick_keeps_well_formed(t: TimerView, delta: nat)
    requires
        t.well_formed(),
    ensures
        t.after_tick(delta).well_formed(),
{
}

/// A running `Once` timer ticked `n >= 1` times by `delta` has finished
/// exactly when `n * delta` more nanoseconds reach its duration; until then
/// it has counted them all, and from then on it sits on its duration.
pub proof fn lemma_once_repeated_ticks(t: TimerView, delta: nat, n: nat)
    requires
        t.mode == TimerMode::Once,
        t.well_formed(),
        !t.finished,
        n >= 1,
    ensures
        t.after_ticks(delta, n).finished == (t.elapsed + n * delta >= t.duration),
        t.after_ticks(delta, n).elapsed == if t.elapsed + n * delta >= t.duration {
            t.duration
        } else {
            t.elapsed + n * delta
        },
        t.after_ticks(delta, n).mode == TimerMode::Once,
        t.after_ticks(delta, n).duration == t.duration,
    decreases n,
{
    if n == 1 {
        assert(t.after_ticks(delta, 0) == t);
        assert(n * delta == delta);
    } else {
        let m = (n - 1) as nat;
        lemma_once_repeated_ticks(t, delta, m);
        assert(m * delta + delta == n * delta) by (nonlinear_arith)
            requires
                m == n - 1,
        ;
        assert(m * delta <= n * delta);
    }
}

/// A tick reports a completion only when it reaches the duration: unless
/// the timer is a finished `Once` timer, a tick whose running total stays
/// below the duration reports no completion and leaves the timer unfinished,
/// and any tick that reports a completion leaves the timer finished.
pub proof fn lemma_completion_only_on_reaching(t: TimerView, delta: nat)
    ensures
        !(t.mode == TimerMode::Once && t.finished) && t.elapsed + delta < t.duration ==> {
            &&& t.after_tick(delta).times_finished_this_tick == 0
            &&& !t.after_tick(delta).finished
        },
        t.after_tick(delta).times_finished_this_tick > 0 ==> t.after_tick(delta).finished,
        !(t.mode == TimerMode::Once && t.finished) && t.after_tick(delta).finished
            ==> t.elapsed + delta >= t.duration,
{
}

/// A `Once` timer completes at most once: a tick reports one completion if
/// it takes a running timer to its duration, none otherwise, and none at all
/// once the timer has finished, so the count is always 0 or 1.
pub proof fn lemma_once_completes_at_most_once(t: TimerView, delta: nat)
    requires
        t.mode == TimerMode::Once,
    ensures
        t.after_tick(delta).times_finished_this_tick <= 1,
        !t.finished ==> t.after_tick(delta).times_finished_this_tick == (if t.elapsed + delta
            >= t.duration {
            1nat
        } else {
            0nat
        }),
        t.finished ==> t.after_tick(delta).times_finished_this_tick == 0,
{
}

/// Over `n >= 1` equal ticks of a running `Once` timer, exactly one tick
/// reports a completion when the ticks reach the duration, and none when
/// they do not: the counts reported by the ticks add up to 1 or 0.
pub proof fn lemma_once_single_completion_over_ticks(t: TimerView, delta: nat, n: nat)
    requires
        t.mode == TimerMode::Once,
        t.well_formed(),
        !t.finished,
    ensures
        completions_over_ticks(t, delta, n) == (if n >= 1 && t.elapsed + n * delta >= t.duration {
            1nat
        } else {
            0nat
        }),
    decreases n,
{
    if n >= 1 {
        let m = (n - 1) as nat;
        lemma_once_single_completion_over_ticks(t, delta, m);
        assert(m * delta + delta == n * delta) by (nonlinear_arith)
            requires
                m == n - 1,
        ;
        if m >= 1 {
            lemma_once_repeated_ticks(t, delta, m);
        } else {
            assert(t.after_ticks(delta, 0) == t);
        }
    }
}

/// The completions reported by the `n` ticks of `delta` from `t`, added up.
pub open spec fn completions_over_ticks(t: TimerView, delta: nat, n: nat) -> nat
    decreases n,
{
    if n == 0 {
        0
    } else {
        completions_over_ticks(t, delta, (n - 1) as nat) + t.after_ticks(delta, n)
            .times_finished_this_tick
    }
}

/// A repeating timer wraps around: after a tick its elapsed time is the
/// running total modulo the duration, and it reports the number of whole
/// durations in that total, as long as that number fits a `u32`.
pub proof fn lemma_repeating_wraps(t: TimerView, delta: nat)
    requires
        t.mode == TimerMode::Repeating,
        t.duration > 0,
        (t.elapsed + delta) / t.duration < u32_modulus(),
    ensures
        t.after_tick(delta).elapsed == (t.elapsed + delta) % t.duration,
        t.after_tick(delta).times_finished_this_tick == (t.elapsed + delta) / t.duration,
        t.after_tick(delta).elapsed < t.duration,
        t.after_tick(delta).elapsed + t.duration * t.after_tick(delta).times_finished_this_tick
            == t.elapsed + delta,
        t.after_tick(delta).finished == (t.elapsed + delta >= t.duration),
{
    let total = t.elapsed + delta;
    let d = t.duration as int;
    lemma_fundamental_div_mod(total as int, d);
    lemma_mod_pos_bound(total as int, d);
    if total >= t.duration {
        lemma_small_mod(total / t.duration, u32_modulus());
    } else {
        lemma_fundamental_div_mod_converse(total as int, d, 0, total as int);
    }
}

/// Ticking a repeating timer by `a` and then by `b` leaves it at the same
/// elapsed time as ticking it once by `a + b`, and the completions reported
/// by the two ticks add up to those of the single one (while the counts fit
/// a `u32`).
pub proof fn lemma_repeating_split_ticks(t: TimerView, a: nat, b: nat)
    requires
        t.mode == TimerMode::Repeating,
        t.duration > 0,
        (t.elapsed + a + b) / t.duration < u32_modulus(),
    ensures
        t.after_tick(a).after_tick(b).elapsed == t.after_tick(a + b).elapsed,
        t.after_tick(a).times_finished_this_tick + t.after_tick(a).after_tick(b).times_finished_this_tick
            == t.after_tick(a + b).times_finished_this_tick,
{
    let d = t.duration as int;
    let x: int = (t.elapsed + a) as int;
    let y: int = x + b;
    lemma_fundamental_div_mod(x, d);
    lemma_mod_pos_bound(x, d);
    lemma_fundamental_div_mod(y, d);
    assert(x / d <= y / d) by {
        vstd::arithmetic::div_mod::lemma_div_is_ordered(x, y, d);
    }
    lemma_repeating_wraps(t, a);
    let t1 = t.after_tick(a);
    let r1: int = x % d;
    let z: int = r1 + b;
    lemma_fundamental_div_mod(z, d);
    lemma_mod_pos_bound(z, d);
    assert(y == (x / d + z / d) * d + z % d) by (nonlinear_arith)
        requires
            x == d * (x / d) + r1,
            z == r1 + b,
            z == d * (z / d) + z % d,
            y == x + b,
    ;
    lemma_fundamental_div_mod_converse(y, d, x / d + z / d, z % d);
    assert(z / d <= y / d) by {
        vstd::arithmetic::div_mod::lemma_div_is_ordered(z, y, d);
    }
    lemma_repeating_wraps(t1, b);
    lemma_repeating_wraps(t, a + b);
}

/// A countdown timer measured in nanoseconds.
pub struct GameTimer {
    duration_nanos: u64,
    elapsed_nanos: u64,
    mode: TimerMode,
    finished: bool,
    times_finished_this_tick: u32,
}

impl View for GameTimer {
    type V = TimerView;

    closed spec fn view(&self) -> TimerView {
        TimerView {
            duration: self.duration_nanos as nat,
            elapsed: self.elapsed_nanos as nat,
            mode: self.mode,
            finished: self.finished,
            times_finished_this_tick: self.times_finished_this_tick as nat,
        }
    }
}

/// Calls `bevy::time::Timer::tick` on a timer rebuilt from plain values and
/// reads the outcome back as plain values.
///
/// The timer is built with `Timer::new` (unpaused, nothing elapsed), given
/// `elapsed_nanos` with `Timer::set_elapsed`, and given the `finished` flag
/// through bevy's reflection (the field has no setter). The contract restates
/// `Timer::tick` of bevy_time 0.10 on such an unpaused timer: a finished
/// `Once` timer is left as it is and reports no completion; otherwise the
/// stopwatch advances by `delta_nanos`, and if it reached the duration a
/// `Repeating` timer wraps by `(total / duration) as u32` durations while a
/// `Once` timer clamps to its duration.
#[verifier::external_body]
fn bevy_timer_tick(
    duration_nanos: u64,
    elapsed_nanos: u64,
    mode: TimerMode,
    finished: bool,
    delta_nanos: u64,
) -> (out: (u64, bool, u32))
    requires
        mode == TimerMode::Repeating ==> duration_nanos > 0,
        elapsed_nanos + delta_nanos <= u64::MAX,
    ensures
        mode == TimerMode::Once && finished ==> out == (elapsed_nanos, true, 0u32),
        !(mode == TimerMode::Once && finished) && elapsed_nanos + delta_nanos < duration_nanos
            ==> out == ((elapsed_nanos + delta_nanos) as u64, false, 0u32),
        !(mode == TimerMode::Once && finished) && elapsed_nanos + delta_nanos >= duration_nanos
            && mode == TimerMode::Once ==> out == (duration_nanos, true, 1u32),
        mode == TimerMode::Repeating && elapsed_nanos + delta_nanos >= duration_nanos ==> {
            &&& out.1
            &&& out.2 == ((elapsed_nanos + delta_nanos) / (duration_nanos as int)) % 0x1_0000_0000
            &&& out.0 == elapsed_nanos + delta_nanos - duration_nanos * out.2
        },
    no_unwind
{
    let bevy_mode = match mode {
        TimerMode::Once => bevy::time::TimerMode::Once,
        TimerMode::Repeating => bevy::time::TimerMode::Repeating,
    };
    let mut timer = bevy::time::Timer::new(Duration::from_nanos(duration_nanos), bevy_mode);
    timer.set_elapsed(Duration::from_nanos(elapsed_nanos));
    *timer.get_field_mut::<bool>("finished").unwrap() = finished;
    timer.tick(Duration::from_nanos(delta_nanos));
    (timer.elapsed().as_nanos() as u64, timer.finished(), timer.times_finished_this_tick())
}

impl GameTimer {
    #[verifier::type_invariant]
    pub(crate) open spec fn inv(self) -> bool {
        self@.well_formed()
    }

    /// A timer of the given duration with nothing elapsed.
    pub fn new(duration_nanos: u64, mode: TimerMode) -> (t: GameTimer)
        ensures
            t@ == (TimerView {
                duration: duration_nanos as nat,
                elapsed: 0,
                mode,
                finished: false,
                times_finished_this_tick: 0,
            }),
    {
        GameTimer { duration_nanos, elapsed_nanos: 0, mode, finished: false, times_finished_this_tick: 0 }
    }

    /// Whether the timer may be advanced by `delta_nanos`.
    pub fn can_tick(&self, delta_nanos: u64) -> (b: bool)
        ensures
            b == self@.can_tick(delta_nanos as nat),
    {
        let positive = match self.mode {
            TimerMode::Once => true,
            TimerMode::Repeating => self.duration_nanos > 0,
        };
        positive && delta_nanos <= u64::MAX - self.elapsed_nanos
    }

    /// Advances the timer by `delta_nanos`.
    pub fn tick(&mut self, delta_nanos: u64)
        requires
            old(self)@.can_tick(delta_nanos as nat),
        ensures
            final(self)@ == old(self)@.after_tick(delta_nanos as nat),
            final(self)@.well_formed(),
    no_unwind
    {
        proof {
            use_type_invariant(&*self);
        }
        let (elapsed, finished, times) = bevy_timer_tick(
            self.duration_nanos,
            self.elapsed_nanos,
            self.mode,
            self.finished,
            delta_nanos,
        );
        *self = GameTimer {
            duration_nanos: self.duration_nanos,
            elapsed_nanos: elapsed,
            mode: self.mode,
            finished,
            times_finished_this_tick: times,
        };
    }

    /// Whether the timer has reached its duration (for a repeating timer:
    /// during the last tick).
    pub fn finished(&self) -> (b: bool)
        ensures
            b == self@.finished,
    {
        self.finished
    }

    /// Whether the timer reached its duration during the last tick.
    pub fn just_finished(&self) -> (b: bool)
        ensures
            b == (self@.times_finished_this_tick > 0),
    {
        self.times_finished_this_tick > 0
    }

    /// How many times the timer reached its duration during the last tick.
    pub fn times_finished_this_tick(&self) -> (n: u32)
        ensures
            n == self@.times_finished_this_tick,
    {
        self.times_finished_this_tick
    }

    /// The elapsed time, in nanoseconds.
    pub fn elapsed_nanos(&self) -> (n: u64)
        ensures
            n == self@.elapsed,
    {
        self.elapsed_nanos
    }

    /// The duration, in nanoseconds.
    pub fn duration_nanos(&self) -> (n: u64)
        ensures
            n == self@.duration,
    {
        self.duration_nanos
    }

    /// Whether the timer stops at its duration or starts over.
    pub fn mode(&self) -> (m: TimerMode)
        ensures
            m == self@.mode,
    {
        self.mode
    }
}

} // verus!
