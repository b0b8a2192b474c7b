//! How long a converging daemon waits: the jitter that keeps a fleet out of
//! lockstep, and the parked daemon's backoff ramp.

use vstd::prelude::*;

use crate::clock;
use crate::config::PacingConfig;
use crate::time;
use crate::time::Duration;

verus! {

/// How many milliseconds the jitter of a wait may add, plus one: a quarter of
/// the wait's milliseconds, counted in 64 bits.
pub open spec fn spread_of(base: nat) -> nat {
    ((base / time::MILLISECOND as nat) % 0x1_0000_0000_0000_0000) / 4
}

/// The wait `base` comes to when the clock shows `now` nanoseconds.
pub open spec fn jittered_to(base: nat, now: u32) -> nat {
    let spread = spread_of(base);
    if spread == 0 {
        base
    } else {
        base + (now as nat % spread) * time::MILLISECOND as nat
    }
}

/// Whether no jitter takes `base` past the longest span.
pub open spec fn room_for_jitter(base: nat) -> bool {
    spread_of(base) > 0 ==> base + (spread_of(base) - 1) * time::MILLISECOND <= time::LONGEST
}

/// Jitter adds nothing to a wait below four milliseconds, and otherwise less
/// than a quarter of it.
pub proof fn jitter_stays_within_a_quarter(base: nat, now: u32)
    ensures
        base <= jittered_to(base, now),
        jittered_to(base, now) <= base + base / 4,
        spread_of(base) > 0 ==> jittered_to(base, now) <= base + (spread_of(base) - 1)
            * time::MILLISECOND,
{
    let spread = spread_of(base);
    if spread > 0 {
        let k = now as nat % spread;
        let ms = base / time::MILLISECOND as nat;
        assert(0 <= k < spread);
        assert(spread * 4 <= ms);
        assert(ms * time::MILLISECOND <= base);
        assert(k * 1_000_000 <= (spread - 1) * 1_000_000);
        assert(spread * 4 * 1_000_000 <= base);
    }
}

/// `base` with a jitter drawn from `now`, the nanoseconds of the current
/// second.
pub fn jittered_at(base: Duration, now: u32) -> (r: Duration)
    requires
        room_for_jitter(base@),
    ensures
        r@ == jittered_to(base@, now),
{
    let millis: u128 = base.as_nanos() / time::MILLISECOND;
    let spread: u64 = ((millis % 0x1_0000_0000_0000_0000) as u64) / 4;
    if spread == 0 {
        return base;
    }
    proof {
        jitter_stays_within_a_quarter(base@, now);
    }
    let extra: u64 = now as u64 % spread;
    base.plus(Duration::from_millis(extra))
}

/// Spread out ticks so that a fleet that booted together does not dial the
/// leader in lockstep: the wait with a jitter drawn from the clock.
pub fn jittered(base: Duration) -> (r: Duration)
    requires
        room_for_jitter(base@),
    ensures
        base@ <= r@ <= base@ + base@ / 4,
        exists|now: u32| now < 1_000_000_000 && r@ == #[trigger] jittered_to(base@, now),
{
    let now: u32 = clock::subsecond();
    proof {
        jitter_stays_within_a_quarter(base@, now);
    }
    jittered_at(base, now)
}

/// The parked daemon's waits between rounds.
#[derive(Debug, Clone, Copy, PartialEq, Eq, Structural)]
pub struct ParkRamp {
    /// The wait after the next round.
    pub backoff: Duration,
    /// The longest wait.
    pub ceiling: Duration,
}

impl ParkRamp {
    /// The wait after `n` failed rounds that started from `floor`.
    pub open spec fn after(floor: nat, ceiling: nat, n: nat) -> nat
        decreases n,
    {
        if n == 0 {
            floor
        } else {
            let last = Self::after(floor, ceiling, (n - 1) as nat);
            if 2 * last <= ceiling {
                2 * last
            } else {
                ceiling
            }
        }
    }

    /// Start at the shortest wait.
    pub fn new(pacing: &PacingConfig) -> (r: ParkRamp)
        ensures
            r.backoff == pacing.park_interval_min,
            r.ceiling == pacing.park_interval_max,
    {
        ParkRamp { backoff: pacing.park_interval_min, ceiling: pacing.park_interval_max }
    }

    /// Whether a failure is worth a warning: a daemon still failing at the
    /// longest wait is stuck, not booting.
    pub fn stuck(&self) -> (r: bool)
        ensures
            r == (self.backoff@ >= self.ceiling@),
    {
        self.ceiling.at_most(&self.backoff)
    }

    /// Double the wait, up to the longest.
    pub fn back_off(&mut self)
        requires
            2 * old(self).backoff@ <= time::LONGEST,
        ensures
            final(self).ceiling == old(self).ceiling,
            final(self).backoff@ == if 2 * old(self).backoff@ <= old(self).ceiling@ {
                2 * old(self).backoff@
            } else {
                old(self).ceiling@
            },
    {
        let doubled = self.backoff.plus(self.backoff);
        self.backoff = doubled.shorter(self.ceiling);
    }
}

/// The ramp never leaves the interval between its floor and its ceiling, and
/// never goes back.
pub proof fn ramp_climbs(floor: nat, ceiling: nat, n: nat)
    requires
        floor <= ceiling,
    ensures
        floor <= ParkRamp::after(floor, ceiling, n) <= ceiling,
        ParkRamp::after(floor, ceiling, n) <= ParkRamp::after(floor, ceiling, n + 1),
    decreases n,
{
    if n > 0 {
        ramp_climbs(floor, ceiling, (n - 1) as nat);
    }
}

/// A ramp that starts above zero reaches its ceiling: after as many failed
/// rounds as the ceiling has nanoseconds, at the latest, every wait is the
/// longest.
pub proof fn ramp_reaches_its_ceiling(floor: nat, ceiling: nat, n: nat)
    requires
        0 < floor <= ceiling,
        n >= ceiling,
    ensures
        ParkRamp::after(floor, ceiling, n) == ceiling,
{
    ramp_gains(floor, ceiling, n);
    ramp_climbs(floor, ceiling, n);
}

proof fn ramp_gains(floor: nat, ceiling: nat, n: nat)
    requires
        0 < floor <= ceiling,
    ensures
        ParkRamp::after(floor, ceiling, n) == ceiling || ParkRamp::after(floor, ceiling, n)
            >= floor + n,
    decreases n,
{
    if n > 0 {
        ramp_gains(floor, ceiling, (n - 1) as nat);
        ramp_climbs(floor, ceiling, (n - 1) as nat);
    }
}

/// What jitter adds, in numbers: whole milliseconds, fewer than a quarter of
/// the milliseconds waited, and as many as the clock's reading leaves over.
pub proof fn jitter_is_what_the_clock_leaves_over(base: Duration, now: u32, r: Duration)
    requires
        call_ensures(jittered_at, (base, now), r),
        base@ / 1_000_000 < 0x1_0000_0000_0000_0000,
    ensures
        base@ / 4_000_000 == 0 ==> r@ == base@,
        base@ / 4_000_000 > 0 ==> r@ == base@ + (now as nat % (base@ / 4_000_000)) * 1_000_000,
        base@ <= r@ <= base@ + base@ / 4,
{
    assert((base@ / 1_000_000) / 4 == base@ / 4_000_000);
    jitter_stays_within_a_quarter(base@, now);
}

/// The jittered wait is never shorter than the wait, nor longer by more than
/// a quarter.
pub proof fn a_fleet_is_spread_over_a_quarter(base: Duration, r: Duration)
    requires
        call_ensures(jittered, (base,), r),
    ensures
        base@ <= r@,
        4 * (r@ - base@) <= base@,
{
}

/// The ramp starts at the configured floor, under the configured ceiling.
pub proof fn the_ramp_starts_at_the_floor(pacing: PacingConfig, r: ParkRamp)
    requires
        call_ensures(ParkRamp::new, (&pacing,), r),
    ensures
        r.backoff@ == pacing.park_interval_min@,
        r.ceiling@ == pacing.park_interval_max@,
{
}

/// A failure is a warning exactly once the wait has reached the ceiling.
pub proof fn a_daemon_is_stuck_at_the_ceiling(ramp: ParkRamp, r: bool)
    requires
        call_ensures(ParkRamp::stuck, (&ramp,), r),
    ensures
        r <==> ramp.ceiling@ <= ramp.backoff@,
{
}

/// A failed round doubles the wait, and the ceiling is all that stops it.
pub proof fn a_failed_round_doubles_the_wait(ramp: &mut ParkRamp)
    requires
        call_ensures(ParkRamp::back_off, (ramp,), ()),
    ensures
        final(ramp).ceiling == old(ramp).ceiling,
        old(ramp).backoff@ + old(ramp).backoff@ <= old(ramp).ceiling@ ==> final(ramp).backoff@
            == old(ramp).backoff@ + old(ramp).backoff@,
        old(ramp).backoff@ + old(ramp).backoff@ > old(ramp).ceiling@ ==> final(ramp).backoff@
            == old(ramp).ceiling@,
{
}

} // verus!
