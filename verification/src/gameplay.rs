//! The timed decisions of the game: when a spawner releases a new mirror or
//! enemy, when an entity's lifetime runs out, and when the on-screen
//! statistics are refreshed.

use vstd::prelude::*;
use crate::timer::{GameTimer, TimerMode, TimerView};
use vstd::arithmetic::div_mod::{lemma_fundamental_div_mod, lemma_mod_pos_bound};
use crate::world::Direction;

verus! {

/// Nanoseconds in a second.
pub const NANOS_PER_SECOND: u64 = 1_000_000_000;

/// Nanoseconds in a millisecond.
pub const NANOS_PER_MILLI: u64 = 1_000_000;

/// How long a mirror lives, in seconds.
pub const MIRROR_LIFETIME_SECONDS: u64 = 10;

/// How long an enemy lives, in seconds.
pub const ENEMY_LIFETIME_SECONDS: u64 = 5;

/// How long a bullet lives, in seconds.
pub const BULLET_LIFETIME_SECONDS: u64 = 5;

/// Time between two mirrors from one spawner, in milliseconds.
pub const MIRROR_SPAWN_PERIOD_MILLIS: u64 = 1000;

/// Time between two enemies from the first enemy spawner, in milliseconds.
pub const FIRST_ENEMY_SPAWN_PERIOD_MILLIS: u64 = 1000;

/// Time between two enemies from the second enemy spawner, in milliseconds.
pub const SECOND_ENEMY_SPAWN_PERIOD_MILLIS: u64 = 1500;

/// Time between two refreshes of the on-screen statistics, in milliseconds.
pub const DEBUG_TEXT_PERIOD_MILLIS: u64 = 100;

/// The state of a fresh timer of the given duration and mode.
pub open spec fn fresh_timer(duration: nat, mode: TimerMode) -> TimerView {
    TimerView { duration, elapsed: 0, mode, finished: false, times_finished_this_tick: 0 }
}

/// A lifetime's timer: one-shot and well formed.
pub open spec fn lifetime_shape(v: TimerView) -> bool {
    v.mode == TimerMode::Once && v.well_formed()
}

/// A pacing timer (of a spawner or of the statistics): repeating, of
/// positive length, and well formed.
pub open spec fn pacing_shape(v: TimerView) -> bool {
    v.mode == TimerMode::Repeating && v.duration > 0 && v.well_formed()
}

/// How long an entity may live before it is removed.
pub struct Lifetime {
    timer: GameTimer,
}

impl View for Lifetime {
    type V = TimerView;

    closed spec fn view(&self) -> TimerView {
        self.timer@
    }
}

impl Lifetime {
    #[verifier::type_invariant]
    spec fn inv(self) -> bool {
        self.timer@.mode == TimerMode::Once
    }

    /// A lifetime of `seconds` seconds, counted by a one-shot timer.
    pub fn from_seconds(seconds: u64) -> (l: Lifetime)
        requires
            seconds * NANOS_PER_SECOND <= u64::MAX,
        ensures
            l@ == fresh_timer((seconds * NANOS_PER_SECOND) as nat, TimerMode::Once),
            lifetime_shape(l@),
    {
        Lifetime { timer: GameTimer::new(seconds * NANOS_PER_SECOND, TimerMode::Once) }
    }

    /// Advances the lifetime by one step of `period_nanos`; returns whether
    /// it has run out, in which case the entity is to be removed.
    pub fn tick(&mut self, period_nanos: u64) -> (expired: bool)
        requires
            old(self)@.elapsed + period_nanos <= u64::MAX,
        ensures
            final(self)@ == old(self)@.after_tick(period_nanos as nat),
            lifetime_shape(final(self)@),
            expired == final(self)@.finished,
    {
        proof {
            use_type_invariant(&*self);
        }
        self.timer.tick(period_nanos);
        self.timer.finished()
    }

    /// The timer that counts this lifetime.
    pub fn timer(&self) -> (t: &GameTimer)
        ensures
            t@ == self@,
            lifetime_shape(self@),
    {
        proof {
            use_type_invariant(self);
            use_type_invariant(&self.timer);
        }
        &self.timer
    }
}

/// A spawner at one side of the field that releases a mirror every second.
pub struct MirrorSpawner {
    timer: GameTimer,
    direction: Direction,
}

impl MirrorSpawner {
    #[verifier::type_invariant]
    spec fn inv(self) -> bool {
        self.timer@.mode == TimerMode::Repeating && self.timer@.duration > 0
    }

    /// The state of the spawner's timer.
    pub closed spec fn timer_view(&self) -> TimerView {
        self.timer@
    }

    /// The side of the field at which the spawner stands.
    pub closed spec fn side(&self) -> Direction {
        self.direction
    }

    /// A spawner on the given side, with a repeating one-second timer.
    pub fn new(direction: Direction) -> (s: MirrorSpawner)
        ensures
            s.side() == direction,
            s.timer_view() == fresh_timer(
                (MIRROR_SPAWN_PERIOD_MILLIS * NANOS_PER_MILLI) as nat,
                TimerMode::Repeating,
            ),
            pacing_shape(s.timer_view()),
    {
        MirrorSpawner {
            timer: GameTimer::new(MIRROR_SPAWN_PERIOD_MILLIS * NANOS_PER_MILLI, TimerMode::Repeating),
            direction,
        }
    }

    /// Advances the spawner by one step of `period_nanos`; returns whether a
    /// mirror is to be released on this step.
    pub fn tick(&mut self, period_nanos: u64) -> (spawn: bool)
        requires
            old(self).timer_view().elapsed + period_nanos <= u64::MAX,
        ensures
            final(self).timer_view() == old(self).timer_view().after_tick(period_nanos as nat),
            pacing_shape(final(self).timer_view()),
            final(self).side() == old(self).side(),
            spawn == final(self).timer_view().finished,
    {
        proof {
            use_type_invariant(&*self);
        }
        self.timer.tick(period_nanos);
        self.timer.finished()
    }

    /// The side of the field at which the spawner stands.
    pub fn direction(&self) -> (d: Direction)
        ensures
            d == self.side(),
    {
        self.direction
    }

    /// The spawner's timer.
    pub fn timer(&self) -> (t: &GameTimer)
        ensures
            t@ == self.timer_view(),
            pacing_shape(self.timer_view()),
    {
        proof {
            use_type_invariant(self);
            use_type_invariant(&self.timer);
        }
        &self.timer
    }
}

/// A spawner above the field that releases an enemy once per period.
pub struct EnemySpawner {
    timer: GameTimer,
}

impl View for EnemySpawner {
    type V = TimerView;

    closed spec fn view(&self) -> TimerView {
        self.timer@
    }
}

impl EnemySpawner {
    #[verifier::type_invariant]
    spec fn inv(self) -> bool {
        self.timer@.mode == TimerMode::Repeating && self.timer@.duration > 0
    }

    /// A spawner releasing an enemy every `period_millis` milliseconds. The
    /// period is positive: a repeating timer of no length cannot be ticked.
    pub fn new(period_millis: u64) -> (s: EnemySpawner)
        requires
            period_millis > 0,
            period_millis * NANOS_PER_MILLI <= u64::MAX,
        ensures
            s@ == fresh_timer((period_millis * NANOS_PER_MILLI) as nat, TimerMode::Repeating),
            pacing_shape(s@),
    {
        EnemySpawner { timer: GameTimer::new(period_millis * NANOS_PER_MILLI, TimerMode::Repeating) }
    }

    /// Advances the spawner by one step of `period_nanos`; returns whether an
    /// enemy is to be released on this step.
    pub fn tick(&mut self, period_nanos: u64) -> (spawn: bool)
        requires
            old(self)@.elapsed + period_nanos <= u64::MAX,
        ensures
            final(self)@ == old(self)@.after_tick(period_nanos as nat),
            pacing_shape(final(self)@),
            spawn == final(self)@.finished,
    {
        proof {
            use_type_invariant(&*self);
        }
        self.timer.tick(period_nanos);
        self.timer.finished()
    }

    /// The spawner's timer.
    pub fn timer(&self) -> (t: &GameTimer)
        ensures
            t@ == self@,
            pacing_shape(self@),
    {
        proof {
            use_type_invariant(self);
            use_type_invariant(&self.timer);
        }
        &self.timer
    }
}

/// The pacing of the on-screen statistics: they are refreshed ten times a
/// second.
pub struct DebugText {
    timer: GameTimer,
}

impl View for DebugText {
    type V = TimerView;

    closed spec fn view(&self) -> TimerView {
        self.timer@
    }
}

impl DebugText {
    #[verifier::type_invariant]
    spec fn inv(self) -> bool {
        self.timer@.mode == TimerMode::Repeating && self.timer@.duration > 0
    }

    /// Pacing with a repeating timer of a tenth of a second.
    pub fn new() -> (d: DebugText)
        ensures
            d@ == fresh_timer((DEBUG_TEXT_PERIOD_MILLIS * NANOS_PER_MILLI) as nat, TimerMode::Repeating),
            pacing_shape(d@),
    {
        DebugText { timer: GameTimer::new(DEBUG_TEXT_PERIOD_MILLIS * NANOS_PER_MILLI, TimerMode::Repeating) }
    }

    /// Advances the pacing by the frame time `delta_nanos`; returns whether
    /// the statistics are to be refreshed on this frame.
    pub fn tick(&mut self, delta_nanos: u64) -> (refresh: bool)
        requires
            old(self)@.elapsed + delta_nanos <= u64::MAX,
        ensures
            final(self)@ == old(self)@.after_tick(delta_nanos as nat),
            pacing_shape(final(self)@),
            refresh == (final(self)@.times_finished_this_tick > 0),
    {
        proof {
            use_type_invariant(&*self);
        }
        self.timer.tick(delta_nanos);
        self.timer.just_finished()
    }

    /// The pacing timer.
    pub fn timer(&self) -> (t: &GameTimer)
        ensures
            t@ == self@,
            pacing_shape(self@),
    {
        proof {
            use_type_invariant(self);
            use_type_invariant(&self.timer);
        }
        &self.timer
    }
}

/// A lifetime of `s` seconds runs out on exactly the step at which the time
/// ticked into it reaches `s` seconds: ticking it by `a` then `b` decides as
/// ticking it by `a + b`, and it is over once the total reaches the length.
pub proof fn lemma_lifetime_runs_out(seconds: nat, a: nat, b: nat)
    ensures
        fresh_timer((seconds * NANOS_PER_SECOND) as nat, TimerMode::Once).after_tick(a).after_tick(b).finished
            == (a + b >= seconds * NANOS_PER_SECOND),
{
    let t = fresh_timer((seconds * NANOS_PER_SECOND) as nat, TimerMode::Once);
    crate::timer::lemma_once_split_ticks(t, a, b);
}

/// The step on which a lifetime of `duration` nanoseconds, ticked by
/// `period` nanoseconds each step, runs out: the first step whose total
/// reaches the duration, and never before the first step.
pub open spec fn expiry_step(duration: nat, period: nat) -> nat
    recommends
        period > 0,
{
    let k = ((duration + period - 1) as nat) / period;
    if k < 1 {
        1
    } else {
        k
    }
}

/// A fresh lifetime of `duration` nanoseconds ticked `n` times by `period`
/// has run out exactly when `n >= 1` and `n * period` reaches the duration;
/// for a positive period that is exactly from step
/// `expiry_step(duration, period)` on, so the entity is removed on that
/// step and on no earlier one.
pub proof fn lemma_lifetime_expires_on_step(duration: nat, period: nat, n: nat)
    ensures
        fresh_timer(duration, TimerMode::Once).after_ticks(period, n).finished
            == (n >= 1 && n * period >= duration),
        period > 0 ==> fresh_timer(duration, TimerMode::Once).after_ticks(period, n).finished
            == (n >= expiry_step(duration, period)),
{
    let t = fresh_timer(duration, TimerMode::Once);
    if n == 0 {
        assert(t.after_ticks(period, 0) == t);
    } else {
        crate::timer::lemma_once_repeated_ticks(t, period, n);
    }
    if period > 0 {
        let p = period as int;
        let d = duration as int;
        let k = (d + p - 1) / p;
        lemma_fundamental_div_mod(d + p - 1, p);
        lemma_mod_pos_bound(d + p - 1, p);
        let r = (d + p - 1) % p;
        assert(k >= 0) by {
            vstd::arithmetic::div_mod::lemma_div_pos_is_pos(d + p - 1, p);
        }
        assert(k == expiry_step(duration, period) || (k == 0 && expiry_step(duration, period) == 1));
        if n >= 1 {
            if n >= k {
                assert(n * p >= k * p) by (nonlinear_arith)
                    requires
                        n >= k,
                        p > 0,
                ;
                assert(k * p == d + p - 1 - r) by (nonlinear_arith)
                    requires
                        d + p - 1 == p * k + r,
                ;
            } else {
                assert(n * p <= (k - 1) * p) by (nonlinear_arith)
                    requires
                        n <= k - 1,
                        p > 0,
                ;
                assert((k - 1) * p == d - 1 - r) by (nonlinear_arith)
                    requires
                        d + p - 1 == p * k + r,
                ;
            }
        }
    }
}

} // verus!
