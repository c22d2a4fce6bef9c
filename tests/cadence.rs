use tailord::buffer::TemperatureBuffer;
use tailord::cadence::{calc_pressure, delay_for_pressure, suitable_delay};

#[test]
fn test_suitable_delay() {
    let mut temp_buffer = TemperatureBuffer::new(20);

    // Test with no pressure.
    assert_eq!(suitable_delay(&temp_buffer, 0), 2000);

    // Test with max pressure.
    assert_eq!(suitable_delay(&temp_buffer, 255), 234);

    // Test with pressure 1.
    assert_eq!(suitable_delay(&temp_buffer, 2), 1733);

    // Test with pressure 1 but this time through temperature diff.
    temp_buffer.update(21);
    assert_eq!(suitable_delay(&temp_buffer, 0), 1733);
}

#[test]
fn delay_follows_the_exponential_curve() {
    for p in 0u8..=15 {
        let expected = (2000.0f64 * (p as f64 * (-1.0 / 7.0)).exp()) as u64;
        assert_eq!(delay_for_pressure(p), expected);
    }
    assert_eq!(delay_for_pressure(200), 234);
}

#[test]
fn delay_strictly_falls_with_pressure() {
    for p in 0u8..15 {
        assert!(delay_for_pressure(p + 1) < delay_for_pressure(p));
    }
}

#[test]
fn pressure_terms_add_and_cap() {
    assert_eq!(calc_pressure(0, 0), 0);
    assert_eq!(calc_pressure(3, 4), 5);
    assert_eq!(calc_pressure(3, 5), 5);
    assert_eq!(calc_pressure(15, 0), 15);
    assert_eq!(calc_pressure(10, 12), 15);
    assert_eq!(calc_pressure(15, 255), 15);
}

#[test]
fn volatility_and_fan_diff_combine() {
    let mut buf = TemperatureBuffer::new(40);
    buf.update(43);
    // volatility 3, fan diff 4 -> pressure 5
    assert_eq!(suitable_delay(&buf, 4), 979);
}

#[test]
fn volatility_is_capped() {
    let mut buf = TemperatureBuffer::new(20);
    buf.update(90);
    assert_eq!(buf.diff_to_min_in_history(), 15);
    assert_eq!(suitable_delay(&buf, 0), 234);
}
