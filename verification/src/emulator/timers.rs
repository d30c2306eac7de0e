//! The delay timer and the sound timer.
//!
//! Both count down once in every period of 16 milliseconds, whatever the
//! rate at which instructions run. The period is that of the machine's
//! 60 Hz clock cut to whole milliseconds, so by the wall clock the timers
//! tick 62.5 times a second. A timer pair can be driven by the wall clock
//! (`update`), by a measured span of time (`advance`) or by a number of
//! ticks (`update_by_ticks`). Time that does not fill a whole period is
//! kept and counted towards the next tick.

use std::time::{Duration, Instant};
use vstd::arithmetic::div_mod::lemma_fundamental_div_mod_converse;
use vstd::prelude::*;

verus! {

/// The rate of the machine's timer clock in Hz, by its name. The period
/// that the timers tick by is `TIMER_PERIOD_MS`.
pub const TIMER_FREQUENCY: u32 = 60;

/// Length of a tick in milliseconds: a 60th of a second, cut to a whole
/// number.
pub const TIMER_PERIOD_MS: u64 = 16;

/// Length of a tick in nanoseconds.
pub const TIMER_PERIOD_NANOS: u64 = 16_000_000;

/// `std::time::Instant`, a point in time that only the clock can produce.
#[verifier::external_type_specification]
#[verifier::external_body]
pub struct ExInstant(Instant);

/// `Instant::clone`: a copy of a point in time.
pub assume_specification[ <Instant as Clone>::clone ](instant: &Instant) -> (copy: Instant);

/// What `Duration::from_nanos` makes of a number: the duration of that
/// many nanoseconds.
pub uninterp spec fn duration_of_nanos(nanos: u64) -> Duration;

/// `Instant::now`: the present moment. Nothing is known of it.
#[verifier::external_body]
pub(crate) fn instant_now() -> (now: Instant) {
    Instant::now()
}

/// `Instant::duration_since`: the time from `earlier` to `later`, zero if
/// `earlier` is in fact the later one. Nothing is claimed of it.
#[verifier::external_body]
fn duration_between(later: &Instant, earlier: &Instant) -> (elapsed: Duration) {
    later.duration_since(*earlier)
}

/// `Duration::as_nanos`: the length of a duration in nanoseconds. The
/// durations that pass through here come from the clock, so nothing is
/// claimed of the number.
#[verifier::external_body]
fn duration_as_nanos(d: &Duration) -> (nanos: u128) {
    d.as_nanos()
}

/// `Duration::from_nanos`: the duration of that many nanoseconds.
#[verifier::external_body]
fn duration_from_nanos(nanos: u64) -> (d: Duration)
    ensures
        d == duration_of_nanos(nanos),
{
    Duration::from_nanos(nanos)
}

/// A timer value after `ticks` ticks: one less per tick, never below 0.
pub open spec fn counted_down(value: u8, ticks: nat) -> u8 {
    if ticks >= value {
        0
    } else {
        (value - ticks) as u8
    }
}

/// The timer pair as a mathematical value.
pub struct TimersView {
    /// The delay timer.
    pub delay: u8,
    /// The sound timer.
    pub sound: u8,
    /// Time that has passed since the last tick; less than a period.
    pub accumulated_nanos: nat,
}

impl TimersView {
    /// Both timers at zero, no time accumulated.
    pub open spec fn initial() -> TimersView {
        TimersView { delay: 0, sound: 0, accumulated_nanos: 0 }
    }

    /// The pair after `ticks` ticks.
    pub open spec fn ticked(self, ticks: nat) -> TimersView {
        TimersView {
            delay: counted_down(self.delay, ticks),
            sound: counted_down(self.sound, ticks),
            ..self
        }
    }

    /// Whether `ticks` ticks change a timer.
    pub open spec fn decrements(self, ticks: nat) -> bool {
        ticks > 0 && (self.delay > 0 || self.sound > 0)
    }

    /// The number of ticks that fall due when `elapsed_nanos` more
    /// nanoseconds have passed.
    pub open spec fn ticks_due(self, elapsed_nanos: nat) -> nat {
        (self.accumulated_nanos + elapsed_nanos) / 16_000_000
    }

    /// The pair after `elapsed_nanos` more nanoseconds: one tick for each
    /// whole period, the remainder kept.
    pub open spec fn after(self, elapsed_nanos: nat) -> TimersView {
        TimersView {
            accumulated_nanos: (self.accumulated_nanos + elapsed_nanos) % 16_000_000,
            ..self.ticked(self.ticks_due(elapsed_nanos))
        }
    }
}

/// The timer pair.
pub struct Timers {
    delay_timer: u8,
    sound_timer: u8,
    last_update: Instant,
    accumulated_nanos: u64,
}

impl View for Timers {
    type V = TimersView;

    closed spec fn view(&self) -> TimersView {
        TimersView {
            delay: self.delay_timer,
            sound: self.sound_timer,
            accumulated_nanos: self.accumulated_nanos as nat,
        }
    }
}

/// A snapshot of the timer pair for debugging and profiling.
#[derive(Debug, Clone, PartialEq)]
pub struct TimingStats {
    pub delay_timer: u8,
    pub sound_timer: u8,
    pub accumulated_time_ms: u64,
    pub time_until_next_update_ms: u64,
    pub frequency_hz: u32,
    pub period_ms: u64,
}

impl Timers {
    #[verifier::type_invariant]
    spec fn well_formed(&self) -> bool {
        self.accumulated_nanos < 16_000_000
    }

    /// Creates a timer pair: both timers at zero, no time accumulated.
    pub fn new() -> (timers: Self)
        ensures
            timers@ == TimersView::initial(),
    {
        Self { delay_timer: 0, sound_timer: 0, last_update: instant_now(), accumulated_nanos: 0 }
    }

    /// Puts the pair back into its initial state, measuring time from now.
    pub fn reset(&mut self)
        ensures
            final(self)@ == TimersView::initial(),
    {
        self.accumulated_nanos = 0;
        self.delay_timer = 0;
        self.sound_timer = 0;
        self.last_update = instant_now();
    }

    /// The delay timer.
    pub fn get_delay_timer(&self) -> (value: u8)
        ensures
            value == self@.delay,
    {
        self.delay_timer
    }

    /// Sets the delay timer.
    pub fn set_delay_timer(&mut self, value: u8)
        ensures
            final(self)@ == (TimersView { delay: value, ..old(self)@ }),
    {
        proof {
            use_type_invariant(&*self);
        }
        self.delay_timer = value;
    }

    /// The sound timer.
    pub fn get_sound_timer(&self) -> (value: u8)
        ensures
            value == self@.sound,
    {
        self.sound_timer
    }

    /// Sets the sound timer.
    pub fn set_sound_timer(&mut self, value: u8)
        ensures
            final(self)@ == (TimersView { sound: value, ..old(self)@ }),
    {
        proof {
            use_type_invariant(&*self);
        }
        self.sound_timer = value;
    }

    /// Whether the tone is due: the sound timer is above zero.
    pub fn should_play_sound(&self) -> (playing: bool)
        ensures
            playing == (self@.sound > 0),
    {
        self.sound_timer > 0
    }

    /// Advances the pair by the time that the wall clock shows to have
    /// passed since the last update. Says whether a timer changed.
    ///
    /// How much time has passed is the clock's affair; whatever it is, the
    /// pair advances by it as `advance` says.
    pub fn update(&mut self) -> (changed: bool)
        ensures
            exists|elapsed_nanos: nat|
                final(self)@ == old(self)@.after(elapsed_nanos) && changed == old(
                    self,
                )@.decrements(#[trigger] old(self)@.ticks_due(elapsed_nanos)),
    {
        let now = instant_now();
        let passed = duration_between(&now, &self.last_update);
        let elapsed = duration_as_nanos(&passed);
        proof {
            use_type_invariant(&*self);
        }
        self.last_update = now;
        let changed = self.advance(elapsed);
        assert(self@ == old(self)@.after(elapsed as nat) && changed == old(self)@.decrements(
            old(self)@.ticks_due(elapsed as nat),
        ));
        changed
    }

    /// Advances the pair by `elapsed_nanos` nanoseconds: each whole period
    /// of accumulated time is one tick, the remainder is kept. Says
    /// whether a timer changed.
    pub fn advance(&mut self, elapsed_nanos: u128) -> (changed: bool)
        ensures
            final(self)@ == old(self)@.after(elapsed_nanos as nat),
            changed == old(self)@.decrements(old(self)@.ticks_due(elapsed_nanos as nat)),
    {
        proof {
            use_type_invariant(&*self);
        }
        let period = TIMER_PERIOD_NANOS as u128;
        let whole = elapsed_nanos / period;
        let part = (elapsed_nanos % period) as u64 + self.accumulated_nanos;
        let carry: u128 = if part >= TIMER_PERIOD_NANOS {
            1
        } else {
            0
        };
        let rest = if part >= TIMER_PERIOD_NANOS {
            part - TIMER_PERIOD_NANOS
        } else {
            part
        };
        let ticks = whole + carry;
        proof {
            let total = old(self)@.accumulated_nanos + elapsed_nanos as nat;
            assert(total == 16_000_000 * ticks + rest);
            lemma_fundamental_div_mod_converse(total as int, 16_000_000, ticks as int, rest as int);
        }
        let changed = ticks > 0 && (self.delay_timer > 0 || self.sound_timer > 0);
        self.delay_timer = Self::count_down(self.delay_timer, ticks);
        self.sound_timer = Self::count_down(self.sound_timer, ticks);
        self.accumulated_nanos = rest;
        changed
    }

    fn count_down(value: u8, ticks: u128) -> (left: u8)
        ensures
            left == counted_down(value, ticks as nat),
    {
        if ticks >= value as u128 {
            0
        } else {
            value - ticks as u8
        }
    }

    /// Advances both timers by `ticks` ticks, whatever the clock says. Says
    /// whether a timer changed.
    pub fn update_by_ticks(&mut self, ticks: u32) -> (changed: bool)
        ensures
            final(self)@ == old(self)@.ticked(ticks as nat),
            changed == old(self)@.decrements(ticks as nat),
    {
        proof {
            use_type_invariant(&*self);
        }
        let changed = ticks > 0 && (self.delay_timer > 0 || self.sound_timer > 0);
        self.delay_timer = Self::count_down(self.delay_timer, ticks as u128);
        self.sound_timer = Self::count_down(self.sound_timer, ticks as u128);
        changed
    }

    /// The time that must still pass before the next tick.
    pub fn time_until_next_update(&self) -> (left: Duration)
        ensures
            self@.accumulated_nanos < 16_000_000,
            left == duration_of_nanos((16_000_000 - self@.accumulated_nanos) as u64),
    {
        duration_from_nanos(self.nanos_until_next_update())
    }

    /// The nanoseconds that must still pass before the next tick.
    pub fn nanos_until_next_update(&self) -> (left: u64)
        ensures
            left == 16_000_000 - self@.accumulated_nanos,
            0 < left <= 16_000_000,
    {
        proof {
            use_type_invariant(self);
        }
        TIMER_PERIOD_NANOS - self.accumulated_nanos
    }

    /// The whole ticks contained in the accumulated time. The accumulated
    /// time never reaches a period, so this is always zero.
    pub fn total_ticks_elapsed(&self) -> (ticks: u64)
        ensures
            ticks == 0,
    {
        proof {
            use_type_invariant(self);
        }
        (self.accumulated_nanos / 1_000_000) / TIMER_PERIOD_MS
    }

    /// Forgets the accumulated time and measures from now.
    pub fn sync_to_real_time(&mut self)
        ensures
            final(self)@ == (TimersView { accumulated_nanos: 0, ..old(self)@ }),
    {
        self.accumulated_nanos = 0;
        self.last_update = instant_now();
    }

    /// The delay timer and the sound timer, in this order.
    pub fn get_both_timers(&self) -> (both: (u8, u8))
        ensures
            both == (self@.delay, self@.sound),
    {
        (self.delay_timer, self.sound_timer)
    }

    /// Sets both timers at once.
    pub fn set_both_timers(&mut self, delay_value: u8, sound_value: u8)
        ensures
            final(self)@ == (TimersView {
                delay: delay_value,
                sound: sound_value,
                ..old(self)@
            }),
    {
        proof {
            use_type_invariant(&*self);
        }
        self.delay_timer = delay_value;
        self.sound_timer = sound_value;
    }

    /// Whether both timers stand at zero.
    pub fn are_both_timers_zero(&self) -> (zero: bool)
        ensures
            zero == (self@.delay == 0 && self@.sound == 0),
    {
        self.delay_timer == 0 && self.sound_timer == 0
    }

    /// The rate of the timer clock in Hz, by its name: `TIMER_FREQUENCY`.
    pub fn get_frequency(&self) -> (frequency: u32)
        ensures
            frequency == 60,
    {
        TIMER_FREQUENCY
    }

    /// A snapshot for debugging, with times in whole milliseconds.
    pub fn get_timing_stats(&self) -> (stats: TimingStats)
        ensures
            stats == (TimingStats {
                delay_timer: self@.delay,
                sound_timer: self@.sound,
                accumulated_time_ms: (self@.accumulated_nanos / 1_000_000) as u64,
                time_until_next_update_ms: ((16_000_000 - self@.accumulated_nanos)
                    / 1_000_000) as u64,
                frequency_hz: 60,
                period_ms: 16,
            }),
    {
        proof {
            use_type_invariant(self);
        }
        TimingStats {
            delay_timer: self.delay_timer,
            sound_timer: self.sound_timer,
            accumulated_time_ms: self.accumulated_nanos / 1_000_000,
            time_until_next_update_ms: self.nanos_until_next_update() / 1_000_000,
            frequency_hz: TIMER_FREQUENCY,
            period_ms: TIMER_PERIOD_MS,
        }
    }
}

impl Default for Timers {
    fn default() -> (timers: Self)
        ensures
            timers@ == TimersView::initial(),
    {
        Self::new()
    }
}

/// Law: ticks add up. Ticking `first` times and then `second` times leaves
/// the pair where `first + second` ticks at once leave it.
pub proof fn lemma_ticks_add_up(timers: TimersView, first: nat, second: nat)
    ensures
        timers.ticked(first).ticked(second) == timers.ticked(first + second),
{
}

/// Law: a timer is never raised by the passing of time, and never falls
/// below zero: after as many ticks as its value, and after any more, it
/// stands at zero.
pub proof fn lemma_ticks_only_lower(timers: TimersView, ticks: nat)
    ensures
        timers.ticked(ticks).delay <= timers.delay,
        timers.ticked(ticks).sound <= timers.sound,
        ticks >= timers.delay ==> timers.ticked(ticks).delay == 0,
        ticks >= timers.sound ==> timers.ticked(ticks).sound == 0,
        timers.ticked(ticks).sound > 0 ==> timers.sound > 0,
{
}

/// Law: time adds up. Letting `first` nanoseconds pass and then `second`
/// leaves the pair where `first + second` nanoseconds at once leave it, so
/// how often the pair is updated does not change how fast it counts.
pub proof fn lemma_time_adds_up(timers: TimersView, first: nat, second: nat)
    requires
        timers.accumulated_nanos < 16_000_000,
    ensures
        timers.after(first).after(second) == timers.after(first + second),
{
    let p = 16_000_000int;
    let a = (timers.accumulated_nanos + first) as int;
    let q1 = a / p;
    let r1 = a % p;
    let q2 = (r1 + second) / p;
    let r2 = (r1 + second) % p;
    vstd::arithmetic::div_mod::lemma_fundamental_div_mod(a, p);
    vstd::arithmetic::div_mod::lemma_fundamental_div_mod(r1 + second, p);
    assert(a + second == p * (q1 + q2) + r2) by (nonlinear_arith)
        requires
            a == p * q1 + r1,
            r1 + second == p * q2 + r2,
    ;
    lemma_fundamental_div_mod_converse(a + second, p, q1 + q2, r2);
    lemma_ticks_add_up(timers, q1 as nat, q2 as nat);
}

} // verus!
