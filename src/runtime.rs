use vstd::prelude::*;
use crate::buffer::{TemperatureBuffer, pushed, seq_min, volatility};
use crate::cadence::{delay_ms, pressure, suitable_delay};
use crate::profile::{FanProfile, fan_at, power_limit_at};

verus! {

/// Length of an override lease in milliseconds.
pub const LEASE_MS: u64 = 1000;

/// Largest step by which the fan speeds up in one tick.
pub const MAX_RAMP_UP: u8 = 3;

/// A manual fan speed that holds until `expires_at` (milliseconds on the
/// caller's monotonic clock).
#[derive(Debug, Clone, Copy, PartialEq, Eq, Structural)]
pub struct OverrideLease {
    pub speed: u8,
    pub expires_at: u64,
}

/// What one control tick asks the caller to do.
#[derive(Debug, Clone, Copy, PartialEq, Eq, Structural)]
pub struct TickActions {
    /// The temperature of this tick: the reading, or the latest sample when
    /// the reading failed.
    pub act_temp: u8,
    /// The smallest temperature in the history.
    pub smoothed_temp: u8,
    pub target_speed: u8,
    pub fan_diff: u8,
    /// The next fan speed on the way to the target.
    pub new_speed: u8,
    /// Whether `new_speed` differs from the speed last written.
    pub write_speed: bool,
    pub power_limit: u8,
    /// Whether `power_limit` differs from the level last written.
    pub write_power_limit: bool,
    /// Milliseconds to wait before the next tick.
    pub delay_ms: u64,
}

/// Runtime state of the controller of one fan.
#[derive(Debug)]
pub struct FanRuntimeData {
    pub temp_history: TemperatureBuffer,
    /// The fan speed last confirmed by the hardware, by a write or a read.
    pub fan_speed: u8,
    pub profile: FanProfile,
    /// The power-limit level last written since the profile was set.
    pub last_power_limit: Option<u8>,
    /// The active manual override, if any.
    pub lease: Option<OverrideLease>,
}

pub open spec fn abs_diff(a: u8, b: u8) -> u8 {
    if a > b {
        (a - b) as u8
    } else {
        (b - a) as u8
    }
}

/// Step size before clamping: a quarter of the distance plus a little more
/// at high targets.
pub open spec fn ramp_increment(current: u8, target: u8) -> int {
    abs_diff(current, target) / 4 + target / 50
}

/// The speed after one tick from `current` towards `target`. Speeding up moves
/// by 1 to `MAX_RAMP_UP` points and never past 100; slowing down (or holding)
/// moves by the unclamped increment, not below 0.
pub open spec fn next_speed(current: u8, target: u8) -> u8 {
    let inc = ramp_increment(current, target);
    if target > current {
        let step = if inc < 1 {
            1
        } else if inc > MAX_RAMP_UP {
            MAX_RAMP_UP as int
        } else {
            inc
        };
        if current + step > 100 {
            100
        } else {
            (current + step) as u8
        }
    } else if current - inc < 0 {
        0
    } else {
        (current - inc) as u8
    }
}

/// The speed after `n` ticks towards a fixed target.
pub open spec fn ramp_n(current: u8, target: u8, n: nat) -> u8
    decreases n,
{
    if n == 0 {
        current
    } else {
        ramp_n(next_speed(current, target), target, (n - 1) as nat)
    }
}

/// The history after a tick's reading; a failed reading adds nothing.
pub open spec fn history_after(h: Seq<u8>, reading: Option<u8>) -> Seq<u8> {
    match reading {
        Some(t) => pushed(h, t),
        None => h,
    }
}

/// The temperature a tick works with.
pub open spec fn act_temp_of(h: Seq<u8>, reading: Option<u8>) -> u8 {
    match reading {
        Some(t) => t,
        None => h.last(),
    }
}

/// Everything one tick computes from the state before it and its reading.
pub open spec fn plan(d: FanRuntimeData, reading: Option<u8>) -> TickActions {
    let h = history_after(d.temp_history@, reading);
    let act = act_temp_of(d.temp_history@, reading);
    let smoothed = seq_min(h);
    let target = fan_at(d.profile@, smoothed) as u8;
    let diff = abs_diff(target, d.fan_speed);
    let new_speed = next_speed(d.fan_speed, target);
    let pl = power_limit_at(d.profile@, act);
    TickActions {
        act_temp: act,
        smoothed_temp: smoothed,
        target_speed: target,
        fan_diff: diff,
        new_speed,
        write_speed: new_speed != d.fan_speed,
        power_limit: pl,
        write_power_limit: d.last_power_limit != Some(pl),
        delay_ms: delay_ms(pressure(volatility(h), diff)),
    }
}

/// A lease granted or refreshed at `now`.
pub open spec fn refreshed(speed: u8, now: u64) -> OverrideLease {
    OverrideLease {
        speed,
        expires_at: if now + LEASE_MS > u64::MAX {
            u64::MAX
        } else {
            (now + LEASE_MS) as u64
        },
    }
}

/// The lease as seen at `now`: gone once its window has elapsed.
pub open spec fn live_at(lease: Option<OverrideLease>, now: u64) -> Option<OverrideLease> {
    match lease {
        Some(l) => if now < l.expires_at {
            Some(l)
        } else {
            None
        },
        None => None,
    }
}

/// Ramp speed for one tick.
pub fn ramp_speed(current: u8, target: u8) -> (r: u8)
    ensures
        r == next_speed(current, target),
{
    let fan_diff = if target > current {
        target - current
    } else {
        current - target
    };
    let mut inc: u8 = fan_diff / 4 + target / 50;
    if target > current {
        if inc > MAX_RAMP_UP {
            inc = MAX_RAMP_UP;
        }
        if inc < 1 {
            inc = 1;
        }
        let s = current.saturating_add(inc);
        if s > 100 {
            100
        } else {
            s
        }
    } else {
        current.saturating_sub(inc)
    }
}

impl FanRuntimeData {
    pub open spec fn wf(&self) -> bool {
        self.temp_history.wf() && self.profile.wf()
    }

    /// State for a fan whose hardware reported `fan_speed` and `temp`.
    pub fn new(profile: FanProfile, fan_speed: u8, temp: u8) -> (r: FanRuntimeData)
        requires
            profile.wf(),
        ensures
            r.wf(),
            r.temp_history@ == seq![temp],
            r.fan_speed == fan_speed,
            r.profile == profile,
            r.last_power_limit.is_none(),
            r.lease.is_none(),
    {
        FanRuntimeData {
            temp_history: TemperatureBuffer::new(temp),
            fan_speed,
            profile,
            last_power_limit: None,
            lease: None,
        }
    }

    /// Adds a reading to the history and returns the temperature of this tick;
    /// a failed reading leaves the history as it is and gives the latest sample.
    pub fn update_temp(&mut self, reading: Option<u8>) -> (r: u8)
        requires
            old(self).wf(),
        ensures
            final(self).wf(),
            r == act_temp_of(old(self).temp_history@, reading),
            final(self).temp_history@ == history_after(old(self).temp_history@, reading),
            final(self).fan_speed == old(self).fan_speed,
            final(self).profile == old(self).profile,
            final(self).last_power_limit == old(self).last_power_limit,
            final(self).lease == old(self).lease,
    {
        match reading {
            Some(temp) => {
                self.temp_history.update(temp);
                temp
            },
            None => self.temp_history.get_latest(),
        }
    }

    /// One control tick: records the reading and decides the fan speed, the
    /// power limit, which of them need writing, and the delay to the next tick.
    pub fn fan_control_tick(&mut self, reading: Option<u8>) -> (r: TickActions)
        requires
            old(self).wf(),
        ensures
            final(self).wf(),
            r == plan(*old(self), reading),
            final(self).temp_history@ == history_after(old(self).temp_history@, reading),
            final(self).fan_speed == old(self).fan_speed,
            final(self).profile == old(self).profile,
            final(self).last_power_limit == old(self).last_power_limit,
            final(self).lease == old(self).lease,
    {
        let act_temp = self.update_temp(reading);
        let smoothed_temp = self.temp_history.min();
        let target_speed = self.profile.calc_target_fan_speed(smoothed_temp);
        let fan_diff = if target_speed > self.fan_speed {
            target_speed - self.fan_speed
        } else {
            self.fan_speed - target_speed
        };
        let new_speed = ramp_speed(self.fan_speed, target_speed);
        let write_speed = self.set_speed(new_speed);
        let power_limit = self.profile.calc_target_power_limit(act_temp);
        let write_power_limit = match self.last_power_limit {
            Some(prev) => prev != power_limit,
            None => true,
        };
        let delay_ms = suitable_delay(&self.temp_history, fan_diff);
        TickActions {
            act_temp,
            smoothed_temp,
            target_speed,
            fan_diff,
            new_speed,
            write_speed,
            power_limit,
            write_power_limit,
            delay_ms,
        }
    }

    /// Whether `new_speed` must be written: only when it differs from the
    /// speed last written.
    pub fn set_speed(&self, new_speed: u8) -> (r: bool)
        ensures
            r == (new_speed != self.fan_speed),
    {
        self.fan_speed != new_speed
    }

    /// Records a fan-speed write that the hardware accepted.
    pub fn speed_written(&mut self, speed: u8)
        ensures
            final(self).fan_speed == speed,
            final(self).temp_history == old(self).temp_history,
            final(self).profile == old(self).profile,
            final(self).last_power_limit == old(self).last_power_limit,
            final(self).lease == old(self).lease,
    {
        self.fan_speed = speed;
    }

    /// Records a power-limit write that the hardware accepted.
    pub fn power_limit_written(&mut self, level: u8)
        ensures
            final(self).last_power_limit == Some(level),
            final(self).temp_history == old(self).temp_history,
            final(self).fan_speed == old(self).fan_speed,
            final(self).profile == old(self).profile,
            final(self).lease == old(self).lease,
    {
        self.last_power_limit = Some(level);
    }

    /// After a suspend and resume cycle: takes the speed read back from the
    /// hardware, which the firmware may have changed meanwhile. A failed read
    /// keeps the cached speed.
    pub fn resync_speed(&mut self, hardware_speed: Option<u8>)
        ensures
            final(self).fan_speed == match hardware_speed {
                Some(s) => s,
                None => old(self).fan_speed,
            },
            final(self).temp_history == old(self).temp_history,
            final(self).profile == old(self).profile,
            final(self).last_power_limit == old(self).last_power_limit,
            final(self).lease == old(self).lease,
    {
        if let Some(s) = hardware_speed {
            self.fan_speed = s;
        }
    }

    /// Replaces the active profile. The next tick evaluates the new profile; the
    /// power-limit level is written again on that tick, whatever it was before.
    pub fn replace_profile(&mut self, profile: FanProfile)
        requires
            old(self).wf(),
            profile.wf(),
        ensures
            final(self).wf(),
            final(self).profile == profile,
            final(self).last_power_limit.is_none(),
            final(self).temp_history == old(self).temp_history,
            final(self).fan_speed == old(self).fan_speed,
            final(self).lease == old(self).lease,
    {
        self.profile = profile;
        self.last_power_limit = None;
    }

    /// Grants or refreshes a manual override at `now`; returns the speed to write.
    pub fn request_override(&mut self, speed: u8, now: u64) -> (r: u8)
        ensures
            r == speed,
            final(self).lease == Some(refreshed(speed, now)),
            final(self).temp_history == old(self).temp_history,
            final(self).fan_speed == old(self).fan_speed,
            final(self).profile == old(self).profile,
            final(self).last_power_limit == old(self).last_power_limit,
    {
        self.lease = Some(OverrideLease { speed, expires_at: now.saturating_add(LEASE_MS) });
        speed
    }

    /// The override speed in force at `now`, dropping the lease once its window
    /// has elapsed; `None` means profile-driven control.
    pub fn override_speed(&mut self, now: u64) -> (r: Option<u8>)
        ensures
            final(self).lease == live_at(old(self).lease, now),
            r == match live_at(old(self).lease, now) {
                Some(l) => Some(l.speed),
                None => None,
            },
            final(self).temp_history == old(self).temp_history,
            final(self).fan_speed == old(self).fan_speed,
            final(self).profile == old(self).profile,
            final(self).last_power_limit == old(self).last_power_limit,
    {
        match self.lease {
            Some(l) => {
                if now < l.expires_at {
                    Some(l.speed)
                } else {
                    self.lease = None;
                    None
                }
            },
            None => None,
        }
    }

    /// Ends the override early, after the hardware refused its speed.
    pub fn end_override(&mut self)
        ensures
            final(self).lease.is_none(),
            final(self).temp_history == old(self).temp_history,
            final(self).fan_speed == old(self).fan_speed,
            final(self).profile == old(self).profile,
            final(self).last_power_limit == old(self).last_power_limit,
    {
        self.lease = None;
    }
}

/// Speeding up moves the fan by at least one and at most `MAX_RAMP_UP` points
/// per tick, for every valid target percentage above the current speed.
pub proof fn lemma_ramp_up_bounded(current: u8, target: u8)
    requires
        current < target <= 100,
    ensures
        current + 1 <= next_speed(current, target) <= current + MAX_RAMP_UP,
        next_speed(current, target) <= 100,
{
}

/// Slowing down is not held to `MAX_RAMP_UP`: far from the target the fan drops
/// by a quarter of the distance or more in one tick.
pub proof fn lemma_ramp_down_unclamped(current: u8, target: u8)
    requires
        target < current,
        current - target >= 16,
    ensures
        current - next_speed(current, target) >= (current - target) / 4,
        current - next_speed(current, target) > MAX_RAMP_UP,
{
}

/// Heading for a target at most 100 from below, the fan gains at most
/// `MAX_RAMP_UP` points per tick and never passes the target.
pub proof fn lemma_ramp_up_at_most(current: u8, target: u8, n: nat)
    requires
        current <= target <= 100,
    ensures
        ramp_n(current, target, n) <= current + MAX_RAMP_UP * n,
        ramp_n(current, target, n) <= target,
    decreases n,
{
    if n > 0 {
        let next = next_speed(current, target);
        lemma_ramp_up_at_most(next, target, (n - 1) as nat);
        assert(MAX_RAMP_UP * n == MAX_RAMP_UP * (n - 1) + MAX_RAMP_UP) by (nonlinear_arith);
    }
}

/// From 100 towards 0 the fan is down to 3 after 14 ticks, while from 0
/// towards 100 it is still below 100 after 33 ticks.
pub proof fn lemma_ramp_down_faster_than_up()
    ensures
        ramp_n(100, 0, 14) == 3,
        forall|n: nat| n <= 33 ==> #[trigger] ramp_n(0, 100, n) < 100,
{
    reveal_with_fuel(ramp_n, 15);
    assert(next_speed(100, 0) == 75);
    assert(next_speed(75, 0) == 57);
    assert(next_speed(57, 0) == 43);
    assert(next_speed(43, 0) == 33);
    assert(next_speed(33, 0) == 25);
    assert(next_speed(25, 0) == 19);
    assert(next_speed(19, 0) == 15);
    assert(next_speed(15, 0) == 12);
    assert(next_speed(12, 0) == 9);
    assert(next_speed(9, 0) == 7);
    assert(next_speed(7, 0) == 6);
    assert(next_speed(6, 0) == 5);
    assert(next_speed(5, 0) == 4);
    assert(next_speed(4, 0) == 3);
    assert forall|n: nat| n <= 33 implies #[trigger] ramp_n(0, 100, n) < 100 by {
        lemma_ramp_up_at_most(0, 100, n);
    }
}

/// A tick asks for no write of a value equal to the one last written.
pub proof fn lemma_writes_elided(d: FanRuntimeData, reading: Option<u8>)
    ensures
        plan(d, reading).new_speed == d.fan_speed ==> !plan(d, reading).write_speed,
        d.last_power_limit == Some(plan(d, reading).power_limit) ==> !plan(
            d,
            reading,
        ).write_power_limit,
{
}

/// A lease refreshed at `t` stays in force with its speed for the whole window
/// after `t`, and is gone once the window has elapsed.
pub proof fn lemma_lease_window(speed: u8, t: u64, now: u64)
    requires
        t <= now,
        t + LEASE_MS <= u64::MAX,
    ensures
        now < t + LEASE_MS ==> live_at(Some(refreshed(speed, t)), now) == Some(
            refreshed(speed, t),
        ),
        now >= t + LEASE_MS ==> live_at(Some(refreshed(speed, t)), now).is_none(),
{
}

/// Refreshing the lease at moments less than one window apart keeps the
/// override in force at every refresh: control never returns to the profile.
pub proof fn lemma_lease_refreshed_every_tick(speeds: Seq<u8>, times: Seq<u64>)
    requires
        speeds.len() == times.len(),
        forall|i: int| 0 <= i < times.len() ==> #[trigger] times[i] + LEASE_MS <= u64::MAX,
        forall|i: int|
            0 <= i < times.len() - 1 ==> times[i] <= #[trigger] times[i + 1] < times[i]
                + LEASE_MS,
    ensures
        forall|i: int|
            0 <= i < times.len() - 1 ==> #[trigger] live_at(
                Some(refreshed(speeds[i], times[i])),
                times[i + 1],
            ) == Some(refreshed(speeds[i], times[i])),
{
    assert forall|i: int| 0 <= i < times.len() - 1 implies #[trigger] live_at(
        Some(refreshed(speeds[i], times[i])),
        times[i + 1],
    ) == Some(refreshed(speeds[i], times[i])) by {
        assert(times[i] + LEASE_MS <= u64::MAX);
        assert(times[i] <= times[i + 1]);
    }
}

/// A new profile governs the tick right after the swap, while the tick that
/// was computed before it used the old one.
pub proof fn lemma_profile_swap_next_tick(
    d: FanRuntimeData,
    swapped: FanRuntimeData,
    reading: Option<u8>,
)
    requires
        d.wf(),
        swapped.wf(),
        swapped.temp_history == d.temp_history,
        swapped.fan_speed == d.fan_speed,
        swapped.last_power_limit.is_none(),
    ensures
        plan(d, reading).target_speed == fan_at(
            d.profile@,
            seq_min(history_after(d.temp_history@, reading)),
        ) as u8,
        plan(swapped, reading).target_speed == fan_at(
            swapped.profile@,
            seq_min(history_after(d.temp_history@, reading)),
        ) as u8,
        plan(swapped, reading).power_limit == power_limit_at(
            swapped.profile@,
            act_temp_of(d.temp_history@, reading),
        ),
        plan(swapped, reading).write_power_limit,
{
}

} // verus!
