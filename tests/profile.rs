use tailord::profile::{FanProfile, FanProfilePoint};
use tailord::profiles::Profile;

fn pt(temp: u8, fan: u8, power_limit: u8) -> FanProfilePoint {
    FanProfilePoint { temp, fan, power_limit }
}

fn curve() -> FanProfile {
    FanProfile::new(vec![pt(40, 0, 0), pt(60, 40, 2), pt(80, 100, 5)]).unwrap()
}

#[test]
fn empty_profile_is_refused() {
    assert!(FanProfile::new(vec![]).is_none());
}

#[test]
fn profile_keeps_its_points() {
    let p = curve();
    assert_eq!(p.points(), &vec![pt(40, 0, 0), pt(60, 40, 2), pt(80, 100, 5)]);
}

#[test]
fn fan_curve_is_clamped_at_both_ends() {
    let p = curve();
    assert_eq!(p.calc_target_fan_speed(0), 0);
    assert_eq!(p.calc_target_fan_speed(39), 0);
    assert_eq!(p.calc_target_fan_speed(80), 100);
    assert_eq!(p.calc_target_fan_speed(255), 100);
}

#[test]
fn fan_curve_interpolates_between_points() {
    let p = curve();
    assert_eq!(p.calc_target_fan_speed(40), 0);
    assert_eq!(p.calc_target_fan_speed(50), 20);
    assert_eq!(p.calc_target_fan_speed(60), 40);
    assert_eq!(p.calc_target_fan_speed(61), 43);
    assert_eq!(p.calc_target_fan_speed(70), 70);
    assert_eq!(p.calc_target_fan_speed(79), 97);
}

#[test]
fn falling_segment_rounds_towards_lower_point() {
    let p = FanProfile::new(vec![pt(40, 50, 0), pt(50, 20, 0)]).unwrap();
    assert_eq!(p.calc_target_fan_speed(41), 47);
    assert_eq!(p.calc_target_fan_speed(49), 23);
}

#[test]
fn power_limit_steps_to_lower_breakpoint() {
    let p = curve();
    assert_eq!(p.calc_target_power_limit(10), 0);
    assert_eq!(p.calc_target_power_limit(59), 0);
    assert_eq!(p.calc_target_power_limit(60), 2);
    assert_eq!(p.calc_target_power_limit(79), 2);
    assert_eq!(p.calc_target_power_limit(200), 5);
}

#[test]
fn single_point_profile_is_flat() {
    let p = FanProfile::new(vec![pt(50, 30, 1)]).unwrap();
    assert_eq!(p.calc_target_fan_speed(0), 30);
    assert_eq!(p.calc_target_fan_speed(255), 30);
    assert_eq!(p.calc_target_power_limit(0), 1);
    assert_eq!(p.calc_target_power_limit(255), 1);
}

#[test]
fn default_curve() {
    let p = FanProfile::default();
    assert_eq!(p.calc_target_fan_speed(20), 0);
    assert_eq!(p.calc_target_fan_speed(60), 35);
    assert_eq!(p.calc_target_fan_speed(90), 100);
}

#[test]
fn profile_falls_back_on_missing_parts() {
    let p = Profile::from_loaded(None, None);
    assert_eq!(p.fan.points(), FanProfile::default().points());
    assert_eq!(p.keyboard, "{}");
    let q = Profile::from_loaded(Some(curve()), Some("{\"a\":1}".to_string()));
    assert_eq!(q.fan.points(), curve().points());
    assert_eq!(q.keyboard, "{\"a\":1}");
}
