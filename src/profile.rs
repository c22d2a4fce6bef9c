use vstd::prelude::*;

verus! {

/// One breakpoint of a fan profile.
#[derive(Debug, Clone, Copy, PartialEq, Eq, Structural)]
pub struct FanProfilePoint {
    pub temp: u8,
    pub fan: u8,
    /// Level written to the system power-limit control.
    pub power_limit: u8,
}

/// Breakpoints of a temperature curve, meant to be in ascending order of
/// temperature. The order is not enforced: an unordered table gives odd but
/// well-defined results.
#[derive(Debug, Clone)]
pub struct FanProfile {
    points: Vec<FanProfilePoint>,
}

/// Index of the first point, scanning from `i`, whose temperature lies above `t`
/// (the length of `s` if there is none).
pub open spec fn bracket_from(s: Seq<FanProfilePoint>, t: u8, i: int) -> int
    decreases s.len() - i,
{
    if i >= s.len() || i < 0 || s[i].temp > t {
        i
    } else {
        bracket_from(s, t, i + 1)
    }
}

/// Index of the first point whose temperature lies above `t`.
pub open spec fn bracket(s: Seq<FanProfilePoint>, t: u8) -> int {
    bracket_from(s, t, 0)
}

/// Fan percentage on the straight line from `lo` to `hi` at `t`, rounded
/// towards `lo.fan`.
pub open spec fn interpolate(lo: FanProfilePoint, hi: FanProfilePoint, t: u8) -> int {
    let dt = hi.temp - lo.temp;
    let x = t - lo.temp;
    if hi.fan >= lo.fan {
        lo.fan + (hi.fan - lo.fan) * x / dt
    } else {
        lo.fan - (lo.fan - hi.fan) * x / dt
    }
}

/// The fan curve at `t`: the first point's value below the table, the last
/// point's value above it, and linear interpolation between the two points
/// that bracket `t`.
pub open spec fn fan_at(s: Seq<FanProfilePoint>, t: u8) -> int {
    let j = bracket(s, t);
    if j == 0 {
        s[0].fan as int
    } else if j >= s.len() {
        s[s.len() - 1].fan as int
    } else {
        interpolate(s[j - 1], s[j], t)
    }
}

/// The power-limit curve at `t`: the value of the nearest breakpoint at or below
/// `t`, and the first point's value below the table.
pub open spec fn power_limit_at(s: Seq<FanProfilePoint>, t: u8) -> u8 {
    let j = bracket(s, t);
    if j == 0 {
        s[0].power_limit
    } else {
        s[j - 1].power_limit
    }
}

/// Temperatures strictly ascending.
pub open spec fn sorted(s: Seq<FanProfilePoint>) -> bool {
    forall|i: int, k: int| 0 <= i < k < s.len() ==> s[i].temp < s[k].temp
}

proof fn lemma_bracket_bounds(s: Seq<FanProfilePoint>, t: u8, i: int)
    requires
        0 <= i <= s.len(),
        forall|k: int| 0 <= k < i ==> s[k].temp <= t,
    ensures
        i <= bracket_from(s, t, i) <= s.len(),
        bracket_from(s, t, i) < s.len() ==> s[bracket_from(s, t, i)].temp > t,
        forall|k: int| 0 <= k < bracket_from(s, t, i) ==> s[k].temp <= t,
    decreases s.len() - i,
{
    if i < s.len() && s[i].temp <= t {
        lemma_bracket_bounds(s, t, i + 1);
    }
}

/// The two points that bracket `t` lie on either side of it, so the
/// interpolation never divides by zero and stays between their fan values.
pub proof fn lemma_interpolate_bounds(lo: FanProfilePoint, hi: FanProfilePoint, t: u8)
    requires
        lo.temp <= t < hi.temp,
    ensures
        lo.fan <= hi.fan ==> lo.fan <= interpolate(lo, hi, t) <= hi.fan,
        hi.fan < lo.fan ==> hi.fan <= interpolate(lo, hi, t) <= lo.fan,
{
    let dt: int = hi.temp - lo.temp;
    let x: int = t - lo.temp;
    let d: int = if hi.fan >= lo.fan { hi.fan - lo.fan } else { lo.fan - hi.fan };
    assert(0 <= d * x / dt <= d) by (nonlinear_arith)
        requires
            0 <= x < dt,
            0 <= d,
    {
        assert(d * x <= d * dt);
        assert(d * x / dt <= d * dt / dt);
    }
}

/// Evaluation is clamped to the table: below the lowest breakpoint it gives
/// that point's values, at or above the highest one that point's values.
pub proof fn lemma_profile_clamped(s: Seq<FanProfilePoint>, t: u8)
    requires
        s.len() > 0,
        sorted(s),
    ensures
        t < s[0].temp ==> fan_at(s, t) == s[0].fan && power_limit_at(s, t) == s[0].power_limit,
        t >= s[s.len() - 1].temp ==> fan_at(s, t) == s[s.len() - 1].fan && power_limit_at(s, t)
            == s[s.len() - 1].power_limit,
{
    lemma_bracket_bounds(s, t, 0);
    if t >= s[s.len() - 1].temp && bracket(s, t) < s.len() {
        assert(s[bracket(s, t)].temp <= s[s.len() - 1].temp);
    }
}

impl View for FanProfile {
    type V = Seq<FanProfilePoint>;

    closed spec fn view(&self) -> Seq<FanProfilePoint> {
        self.points@
    }
}

impl FanProfile {
    pub open spec fn wf(&self) -> bool {
        self@.len() > 0
    }

    /// A profile over the given breakpoints; `None` when there are none.
    pub fn new(points: Vec<FanProfilePoint>) -> (r: Option<FanProfile>)
        ensures
            points@.len() == 0 <==> r.is_none(),
            r matches Some(p) ==> p.wf() && p@ == points@,
    {
        if points.len() == 0 {
            None
        } else {
            Some(FanProfile { points })
        }
    }

    /// The breakpoints.
    pub fn points(&self) -> (r: &Vec<FanProfilePoint>)
        ensures
            r@ == self@,
    {
        &self.points
    }

    fn find_bracket(&self, t: u8) -> (r: usize)
        requires
            self.wf(),
        ensures
            r == bracket(self@, t),
            r <= self@.len(),
            r < self@.len() ==> self@[r as int].temp > t,
            forall|k: int| 0 <= k < r ==> self@[k].temp <= t,
    {
        proof {
            lemma_bracket_bounds(self@, t, 0);
        }
        let mut i: usize = 0;
        while i < self.points.len() && self.points[i].temp <= t
            invariant
                i <= self@.len(),
                bracket_from(self@, t, i as int) == bracket(self@, t),
            decreases self@.len() - i,
        {
            i = i + 1;
        }
        i
    }

    /// Target fan percentage at temperature `t`.
    pub fn calc_target_fan_speed(&self, t: u8) -> (r: u8)
        requires
            self.wf(),
        ensures
            r == fan_at(self@, t),
    {
        let j = self.find_bracket(t);
        if j == 0 {
            self.points[0].fan
        } else if j >= self.points.len() {
            self.points[self.points.len() - 1].fan
        } else {
            let lo = self.points[j - 1];
            let hi = self.points[j];
            proof {
                lemma_interpolate_bounds(lo, hi, t);
            }
            let dt = (hi.temp - lo.temp) as u32;
            let x = (t - lo.temp) as u32;
            if hi.fan >= lo.fan {
                let d = (hi.fan - lo.fan) as u32;
                assert(d * x <= 255 * 255) by (nonlinear_arith)
                    requires
                        d <= 255,
                        x <= 255,
                ;
                lo.fan + (d * x / dt) as u8
            } else {
                let d = (lo.fan - hi.fan) as u32;
                assert(d * x <= 255 * 255) by (nonlinear_arith)
                    requires
                        d <= 255,
                        x <= 255,
                ;
                lo.fan - (d * x / dt) as u8
            }
        }
    }

    /// Target power-limit level at temperature `t`.
    pub fn calc_target_power_limit(&self, t: u8) -> (r: u8)
        requires
            self.wf(),
        ensures
            r == power_limit_at(self@, t),
    {
        let j = self.find_bracket(t);
        if j == 0 {
            self.points[0].power_limit
        } else {
            self.points[j - 1].power_limit
        }
    }
}

impl Default for FanProfile {
    /// Built-in curve for a fan without a configured profile: silent up to 25°C,
    /// full speed from 85°C, no power limit.
    fn default() -> (r: FanProfile)
        ensures
            r.wf(),
            sorted(r@),
    {
        let mut points: Vec<FanProfilePoint> = Vec::new();
        points.push(FanProfilePoint { temp: 25, fan: 0, power_limit: 0 });
        points.push(FanProfilePoint { temp: 50, fan: 20, power_limit: 0 });
        points.push(FanProfilePoint { temp: 70, fan: 50, power_limit: 0 });
        points.push(FanProfilePoint { temp: 85, fan: 100, power_limit: 0 });
        FanProfile { points }
    }
}

} // verus!
