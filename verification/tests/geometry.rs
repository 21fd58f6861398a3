use appshell::geometry::{
    compute_initial_position, initial_vertical_offset, logical_to_physical, LogicalSize,
    PhysicalPosition, ScaleFactor,
};

fn monitor_full_hd() -> LogicalSize {
    LogicalSize { width: 1920, height: 1080 }
}

fn bar_window() -> LogicalSize {
    LogicalSize { width: 800, height: 60 }
}

#[test]
fn centered_at_scale_one() {
    let p = compute_initial_position(monitor_full_hd(), bar_window(), ScaleFactor { num: 1, den: 1 });
    assert_eq!(p, PhysicalPosition { x: 560, y: 216 });
}

#[test]
fn centered_at_scale_two() {
    let p = compute_initial_position(monitor_full_hd(), bar_window(), ScaleFactor { num: 2, den: 1 });
    assert_eq!(p, PhysicalPosition { x: 1120, y: 432 });
}

#[test]
fn centered_at_fractional_scale() {
    let p = compute_initial_position(monitor_full_hd(), bar_window(), ScaleFactor { num: 3, den: 2 });
    assert_eq!(p, PhysicalPosition { x: 840, y: 324 });
}

#[test]
fn odd_slack_keeps_its_half_unit() {
    // One logical unit of slack centers the window at half a unit; the
    // half is kept through the conversion and rounded only there.
    let monitor = LogicalSize { width: 801, height: 1080 };
    // 0.5 * 1 = 0.5 rounds up to 1.
    let at_one = compute_initial_position(monitor, bar_window(), ScaleFactor { num: 1, den: 1 });
    assert_eq!(at_one.x, 1);
    // 0.5 * 1.5 = 0.75 rounds up to 1.
    let at_threehalves =
        compute_initial_position(monitor, bar_window(), ScaleFactor { num: 3, den: 2 });
    assert_eq!(at_threehalves.x, 1);
    // 0.5 * 0.5 = 0.25 rounds down to 0.
    let at_half = compute_initial_position(monitor, bar_window(), ScaleFactor { num: 1, den: 2 });
    assert_eq!(at_half.x, 0);
}

#[test]
fn physical_conversion_rounds_half_up() {
    // 101 * 1.5 = 151.5, which rounds up to 152.
    assert_eq!(logical_to_physical(101, ScaleFactor { num: 3, den: 2 }), 152);
    // 100 * 1.5 = 150 exactly.
    assert_eq!(logical_to_physical(100, ScaleFactor { num: 3, den: 2 }), 150);
}

#[test]
fn vertical_offset_rounds_to_nearest() {
    // 1082 / 5 = 216.4 rounds down.
    assert_eq!(initial_vertical_offset(LogicalSize { width: 1920, height: 1082 }), 216);
    // 1083 / 5 = 216.6 rounds up.
    assert_eq!(initial_vertical_offset(LogicalSize { width: 1920, height: 1083 }), 217);
    // 1080 / 5 = 216 exactly.
    assert_eq!(initial_vertical_offset(monitor_full_hd()), 216);
}

#[test]
fn window_as_wide_as_monitor_sits_at_left_edge() {
    let monitor = LogicalSize { width: 800, height: 1000 };
    let p = compute_initial_position(monitor, bar_window(), ScaleFactor { num: 1, den: 1 });
    assert_eq!(p.x, 0);
    assert_eq!(p.y, 200);
}

#[test]
fn window_as_large_as_monitor() {
    let monitor = LogicalSize { width: 800, height: 60 };
    let p = compute_initial_position(monitor, bar_window(), ScaleFactor { num: 1, den: 1 });
    assert_eq!(p.x, 0);
    assert_eq!(p.y, 12);
}

#[test]
fn placed_window_stays_inside_monitor() {
    // At scale one the device-pixel coordinates are the logical ones.
    let p = compute_initial_position(monitor_full_hd(), bar_window(), ScaleFactor { num: 1, den: 1 });
    assert!(p.x + 800 <= 1920);
    assert!(p.y + 60 <= 1080);
}

#[test]
fn position_is_deterministic() {
    let a = compute_initial_position(monitor_full_hd(), bar_window(), ScaleFactor { num: 5, den: 4 });
    let b = compute_initial_position(monitor_full_hd(), bar_window(), ScaleFactor { num: 5, den: 4 });
    assert_eq!(a, b);
}

#[test]
fn largest_inputs_stay_in_range() {
    let monitor = LogicalSize { width: u32::MAX, height: u32::MAX };
    let window = LogicalSize { width: u32::MAX, height: u32::MAX };
    let scale = ScaleFactor { num: u32::MAX, den: 1 };
    let p = compute_initial_position(monitor, window, scale);
    assert_eq!(p.x, 0);
    // A fifth of u32::MAX, rounded, then scaled by u32::MAX and rounded.
    let fifth = (2u128 * u32::MAX as u128 + 5) / 10;
    let expected = (2 * fifth * u32::MAX as u128 + 1) / 2;
    assert_eq!(p.y as u128, expected);
}
