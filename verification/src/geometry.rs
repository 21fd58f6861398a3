//! Where the window is placed at startup: horizontally centered on the
//! monitor, vertically offset to a fifth of the monitor's height, stated
//! in resolution-independent (logical) units and then converted to device
//! pixels through the monitor's scale factor. The horizontal center keeps
//! its exact half logical unit: each device-pixel coordinate is rounded
//! once, at the conversion.

use vstd::arithmetic::div_mod::lemma_multiply_divide_le;
use vstd::arithmetic::mul::lemma_mul_upper_bound;
use vstd::prelude::*;

verus! {

/// A size in logical units.
#[derive(Clone, Copy, PartialEq, Eq, Structural, Debug)]
pub struct LogicalSize {
    pub width: u32,
    pub height: u32,
}

/// A position in device pixels.
#[derive(Clone, Copy, PartialEq, Eq, Structural, Debug)]
pub struct PhysicalPosition {
    pub x: u64,
    pub y: u64,
}

/// A monitor's scale factor as the exact ratio `num / den`; both parts
/// are positive, so the factor itself is positive.
#[derive(Clone, Copy, PartialEq, Eq, Structural, Debug)]
pub struct ScaleFactor {
    pub num: u32,
    pub den: u32,
}

impl ScaleFactor {
    pub open spec fn wf(self) -> bool {
        self.num >= 1 && self.den >= 1
    }
}

/// Twice the horizontal coordinate that centers a window of width
/// `window_width` on a monitor of width `monitor_width`, in logical
/// units: the centered coordinate itself is half of this, and carrying
/// the doubled value keeps its exact half unit when the slack is odd.
pub open spec fn spec_center_x_doubled(monitor_width: int, window_width: int) -> int {
    monitor_width - window_width
}

/// A fifth of the monitor's height, rounded to the nearest logical unit
/// (the fractional part of `h / 5` is never one half, so no tie arises).
pub open spec fn spec_offset_y(monitor_height: int) -> int {
    (2 * monitor_height + 5) / 10
}

/// `v` scaled by `num / den` and rounded to the nearest device pixel,
/// halves rounding up.
pub open spec fn spec_scale_round(v: int, num: int, den: int) -> int {
    (2 * v * num + den) / (2 * den)
}

/// The device-pixel horizontal coordinate the window is created at: the
/// exact logical center `(monitor.width - window.width) / 2`, half unit
/// and all, scaled by `num / den` and rounded to the nearest pixel,
/// halves rounding up.
pub open spec fn spec_initial_x(monitor: LogicalSize, window: LogicalSize, scale: ScaleFactor) -> int {
    (spec_center_x_doubled(monitor.width as int, window.width as int) * scale.num + scale.den) / (
    2 * scale.den)
}

/// The device-pixel vertical coordinate the window is created at.
pub open spec fn spec_initial_y(monitor: LogicalSize, scale: ScaleFactor) -> int {
    spec_scale_round(spec_offset_y(monitor.height as int), scale.num as int, scale.den as int)
}

/// The vertical offset of the window in logical units: a rounded fifth
/// of the monitor's height.
pub fn initial_vertical_offset(monitor: LogicalSize) -> (y: u32)
    ensures
        y == spec_offset_y(monitor.height as int),
{
    let offset: u64 = (2 * (monitor.height as u64) + 5) / 10;
    proof {
        assert(2 * (monitor.height as int) + 5 < 10 * ((monitor.height as int) + 1));
        lemma_multiply_divide_le(
            2 * (monitor.height as int) + 5,
            10,
            (monitor.height as int) + 1,
        );
    }
    offset as u32
}

/// One logical coordinate converted to device pixels: multiplied by the
/// scale factor and rounded to the nearest integer, halves rounding up.
pub fn logical_to_physical(v: u32, scale: ScaleFactor) -> (p: u64)
    requires
        scale.wf(),
    ensures
        p == spec_scale_round(v as int, scale.num as int, scale.den as int),
{
    proof {
        assert(2 * (v as int) * (scale.num as int) <= 2 * 0xffff_ffff * 0xffff_ffff)
            by (nonlinear_arith)
            requires
                0 <= v as int <= 0xffff_ffff,
                0 <= scale.num as int <= 0xffff_ffff,
        ;
    }
    let top: u128 = 2 * (v as u128) * (scale.num as u128) + (scale.den as u128);
    let bottom: u128 = 2 * (scale.den as u128);
    let q: u128 = top / bottom;
    proof {
        let vi = v as int;
        let n = scale.num as int;
        let d = scale.den as int;
        assert(2 * vi * n + d <= (2 * d) * (vi * n + 1)) by (nonlinear_arith)
            requires
                vi >= 0,
                n >= 1,
                d >= 1,
        ;
        lemma_multiply_divide_le(2 * vi * n + d, 2 * d, vi * n + 1);
        lemma_mul_upper_bound(vi, 0xffff_ffff, n, 0xffff_ffff);
    }
    q as u64
}

/// The startup position of the window in device pixels, for a monitor of
/// the given logical size and scale factor: centered horizontally, with
/// the exact half logical unit carried into the conversion; vertically at
/// a rounded fifth of the monitor's height, then converted. Each
/// device-pixel coordinate is rounded once, to the nearest pixel, halves
/// rounding up.
pub fn compute_initial_position(
    monitor: LogicalSize,
    window: LogicalSize,
    scale: ScaleFactor,
) -> (p: PhysicalPosition)
    requires
        scale.wf(),
        window.width <= monitor.width,
        window.height <= monitor.height,
    ensures
        p.x == spec_initial_x(monitor, window, scale),
        p.y == spec_initial_y(monitor, scale),
{
    let slack: u32 = monitor.width - window.width;
    proof {
        assert((slack as int) * (scale.num as int) <= 0xffff_ffff * 0xffff_ffff)
            by (nonlinear_arith)
            requires
                0 <= slack as int <= 0xffff_ffff,
                0 <= scale.num as int <= 0xffff_ffff,
        ;
    }
    let top: u128 = (slack as u128) * (scale.num as u128) + (scale.den as u128);
    let bottom: u128 = 2 * (scale.den as u128);
    let qx: u128 = top / bottom;
    proof {
        let s = slack as int;
        let n = scale.num as int;
        let d = scale.den as int;
        assert(s * n + d <= (2 * d) * (s * n + 1)) by (nonlinear_arith)
            requires
                s >= 0,
                n >= 1,
                d >= 1,
        ;
        lemma_multiply_divide_le(s * n + d, 2 * d, s * n + 1);
        lemma_mul_upper_bound(s, 0xffff_ffff, n, 0xffff_ffff);
    }
    let x: u64 = qx as u64;
    let offset: u32 = initial_vertical_offset(monitor);
    let y: u64 = logical_to_physical(offset, scale);
    PhysicalPosition { x, y }
}

/// In logical units the placed window stays inside the monitor. The
/// horizontal edges are stated in doubled logical units, since the exact
/// centered coordinate is `(monitor.width - window.width) / 2`: the left
/// edge (twice the centered coordinate) is at or right of the monitor's
/// left edge, and the right edge (that plus twice the window's width) at
/// or left of the monitor's right edge. Vertically the window fits
/// whenever its height fits under the vertical offset.
pub proof fn lemma_initial_position_within_monitor(monitor: LogicalSize, window: LogicalSize)
    requires
        window.width <= monitor.width,
        spec_offset_y(monitor.height as int) + window.height <= monitor.height,
    ensures
        0 <= spec_center_x_doubled(monitor.width as int, window.width as int),
        spec_center_x_doubled(monitor.width as int, window.width as int) + 2 * window.width <= 2
            * monitor.width,
        0 <= spec_offset_y(monitor.height as int),
        spec_offset_y(monitor.height as int) + window.height <= monitor.height,
{
}

/// The computed position is a function of its inputs alone: identical
/// monitor, window and scale always give the identical position.
pub proof fn lemma_initial_position_deterministic(
    m1: LogicalSize,
    w1: LogicalSize,
    s1: ScaleFactor,
    m2: LogicalSize,
    w2: LogicalSize,
    s2: ScaleFactor,
)
    requires
        m1 == m2,
        w1 == w2,
        s1 == s2,
    ensures
        spec_initial_x(m1, w1, s1) == spec_initial_x(m2, w2, s2),
        spec_initial_y(m1, s1) == spec_initial_y(m2, s2),
{
}

} // verus!
