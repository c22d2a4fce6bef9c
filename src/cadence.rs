use vstd::prelude::*;
use crate::buffer::{TemperatureBuffer, volatility};

verus! {

/// Largest pressure value.
pub const MAX_PRESSURE: u8 = 15;

/// Volatility plus half the fan-speed deviation, capped at `MAX_PRESSURE`.
pub open spec fn pressure(volatility: u8, fan_diff: u8) -> u8 {
    let p = volatility + fan_diff / 2;
    if p > MAX_PRESSURE {
        MAX_PRESSURE
    } else {
        p as u8
    }
}

/// Polling delay in milliseconds for pressure `p`: `2000 * exp(-p / 7)`
/// truncated to whole milliseconds, from 2000 at rest to 234 at full pressure.
pub open spec fn delay_ms(p: u8) -> u64 {
    match p {
        0 => 2000,
        1 => 1733,
        2 => 1502,
        3 => 1302,
        4 => 1129,
        5 => 979,
        6 => 848,
        7 => 735,
        8 => 637,
        9 => 552,
        10 => 479,
        11 => 415,
        12 => 360,
        13 => 312,
        14 => 270,
        _ => 234,
    }
}

/// The delay falls strictly as the pressure rises.
pub proof fn lemma_delay_decreasing(p: u8, q: u8)
    requires
        p < q <= MAX_PRESSURE,
    ensures
        delay_ms(q) < delay_ms(p),
{
}

/// Combines the volatility and the fan-speed deviation into a pressure value.
pub fn calc_pressure(volatility: u8, fan_diff: u8) -> (r: u8)
    ensures
        r == pressure(volatility, fan_diff),
        r <= MAX_PRESSURE,
{
    let p = volatility.saturating_add(fan_diff / 2);
    if p > MAX_PRESSURE {
        MAX_PRESSURE
    } else {
        p
    }
}

/// Delay for a pressure value.
pub fn delay_for_pressure(p: u8) -> (r: u64)
    ensures
        r == delay_ms(p),
{
    match p {
        0 => 2000,
        1 => 1733,
        2 => 1502,
        3 => 1302,
        4 => 1129,
        5 => 979,
        6 => 848,
        7 => 735,
        8 => 637,
        9 => 552,
        10 => 479,
        11 => 415,
        12 => 360,
        13 => 312,
        14 => 270,
        _ => 234,
    }
}

/// How long to wait, in milliseconds, before the next sample: short while the
/// temperature moves or the fan is far from its target, long when all is settled.
pub fn suitable_delay(temp_buffer: &TemperatureBuffer, fan_diff: u8) -> (r: u64)
    requires
        temp_buffer.wf(),
    ensures
        r == delay_ms(pressure(volatility(temp_buffer@), fan_diff)),
{
    let temperature_pressure = temp_buffer.diff_to_min_in_history();
    delay_for_pressure(calc_pressure(temperature_pressure, fan_diff))
}

} // verus!
