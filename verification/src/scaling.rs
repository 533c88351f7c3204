//! Scale geometry: where a source image lands inside a target surface.
//!
//! Ratios are kept as fractions and never rounded before the final floor: a
//! scaled length is `floor(source * target_a / source_a)`, computed in 64-bit
//! integers. `Fit` therefore always touches the target on its limiting side,
//! `Fill` always covers the target, and equal inputs give equal placements on
//! every machine. A mode that needs a ratio refuses a source without area:
//! no placement comes out of a division by zero.

use vstd::prelude::*;
use crate::error::RenderError;

verus! {

/// How a source image is fitted to a target surface.
#[derive(Clone, Copy, Debug, PartialEq, Eq, Structural)]
pub enum ScaleMode {
    /// Ignore the aspect ratio and cover the target exactly.
    Stretch,
    /// Keep the aspect ratio; the whole source stays visible.
    Fit,
    /// Keep the aspect ratio; the whole target is covered.
    Fill,
    /// Scale by the largest whole factor that still fits, at least 1.
    Integer,
    /// Do not scale; centre the source.
    Unscaled,
}

/// The rectangle of the target, in target pixels, that the scaled source
/// occupies. It may reach beyond the target; drawing clips it.
#[derive(Clone, Copy, Debug, PartialEq, Eq, Structural)]
pub struct Placement {
    pub offset_x: u32,
    pub offset_y: u32,
    pub width: u32,
    pub height: u32,
}

/// The offset that centres `size` pixels in `target` pixels, never negative:
/// an oversized image is pinned to offset 0.
pub open spec fn spec_centered_offset(target: int, size: int) -> int {
    if size >= target {
        0
    } else {
        (target - size) / 2
    }
}

/// A length cut off at the largest value a `u32` holds.
pub open spec fn spec_saturate(value: int) -> int {
    if value > u32::MAX as int {
        u32::MAX as int
    } else {
        value
    }
}

/// Whether the horizontal ratio `tw / sw` is the smaller of the two ratios
/// (ties included), compared without division.
pub open spec fn spec_width_limits(sw: int, sh: int, tw: int, th: int) -> bool {
    tw * sh <= th * sw
}

/// Size under `Fit`: the source scaled by `min(tw / sw, th / sh)`, floored.
pub open spec fn spec_fit_size(sw: int, sh: int, tw: int, th: int) -> (int, int)
    recommends
        sw > 0,
        sh > 0,
{
    if spec_width_limits(sw, sh, tw, th) {
        (tw, (tw * sh) / sw)
    } else {
        ((th * sw) / sh, th)
    }
}

/// Size under `Fill`: the source scaled by `max(tw / sw, th / sh)`, floored,
/// each length saturating at `u32::MAX`. The result is not clamped to the
/// target.
pub open spec fn spec_fill_size(sw: int, sh: int, tw: int, th: int) -> (int, int)
    recommends
        sw > 0,
        sh > 0,
{
    if tw * sh >= th * sw {
        (tw, spec_saturate((tw * sh) / sw))
    } else {
        (spec_saturate((th * sw) / sh), th)
    }
}

/// The whole factor used by `Integer`: `floor(min(tw / sw, th / sh))`, but at
/// least 1.
pub open spec fn spec_integer_factor(sw: int, sh: int, tw: int, th: int) -> int
    recommends
        sw > 0,
        sh > 0,
{
    let fx = tw / sw;
    let fy = th / sh;
    let f = if fx <= fy { fx } else { fy };
    if f < 1 { 1 } else { f }
}

/// Whether `mode` divides by the source dimensions.
pub open spec fn spec_uses_ratio(mode: ScaleMode) -> bool {
    mode == ScaleMode::Fit || mode == ScaleMode::Fill || mode == ScaleMode::Integer
}

/// Whether computing a placement would have to divide by zero.
pub open spec fn spec_divides_by_zero(sw: u32, sh: u32, mode: ScaleMode) -> bool {
    spec_uses_ratio(mode) && (sw == 0 || sh == 0)
}

/// The size of the scaled image. It is defined where no division by a zero
/// source dimension is needed.
pub open spec fn spec_scaled_size(sw: u32, sh: u32, tw: u32, th: u32, mode: ScaleMode) -> (
    int,
    int,
)
    recommends
        !spec_divides_by_zero(sw, sh, mode),
{
    match mode {
        ScaleMode::Stretch => (tw as int, th as int),
        ScaleMode::Unscaled => (sw as int, sh as int),
        ScaleMode::Fit => spec_fit_size(sw as int, sh as int, tw as int, th as int),
        ScaleMode::Fill => spec_fill_size(sw as int, sh as int, tw as int, th as int),
        ScaleMode::Integer => {
            let f = spec_integer_factor(sw as int, sh as int, tw as int, th as int);
            (sw * f, sh * f)
        },
    }
}

/// The placement of a `sw`×`sh` source in a `tw`×`th` target under `mode`:
/// the scaled size, centred, with offsets that never go below zero.
/// `Stretch` always starts at the origin. No placement is defined where the
/// mode would divide by a zero source dimension.
pub open spec fn spec_placement(sw: u32, sh: u32, tw: u32, th: u32, mode: ScaleMode) -> Placement
    recommends
        !spec_divides_by_zero(sw, sh, mode),
{
    let (w, h) = spec_scaled_size(sw, sh, tw, th, mode);
    Placement {
        offset_x: spec_centered_offset(tw as int, w) as u32,
        offset_y: spec_centered_offset(th as int, h) as u32,
        width: w as u32,
        height: h as u32,
    }
}

/// The scaled size always fits in 32 bits, so the casts in
/// [`spec_placement`] lose nothing.
pub proof fn lemma_scaled_size_in_range(sw: u32, sh: u32, tw: u32, th: u32, mode: ScaleMode)
    requires
        !spec_divides_by_zero(sw, sh, mode),
    ensures
        0 <= spec_scaled_size(sw, sh, tw, th, mode).0 <= u32::MAX,
        0 <= spec_scaled_size(sw, sh, tw, th, mode).1 <= u32::MAX,
{
    if sw > 0 && sh > 0 {
        lemma_fit_size_bounds(sw as int, sh as int, tw as int, th as int);
        lemma_fill_size_bounds(sw as int, sh as int, tw as int, th as int);
        lemma_integer_factor_bounds(sw as int, sh as int, tw as int, th as int);
    }
}

/// Under `Fit` neither length exceeds the target, and the limiting one
/// equals it.
pub proof fn lemma_fit_size_bounds(sw: int, sh: int, tw: int, th: int)
    requires
        sw > 0,
        sh > 0,
        tw >= 0,
        th >= 0,
    ensures
        0 <= spec_fit_size(sw, sh, tw, th).0 <= tw,
        0 <= spec_fit_size(sw, sh, tw, th).1 <= th,
        spec_fit_size(sw, sh, tw, th).0 == tw || spec_fit_size(sw, sh, tw, th).1 == th,
{
    if spec_width_limits(sw, sh, tw, th) {
        lemma_floor_ratio_bounded(tw * sh, sw, th);
        assert(tw * sh >= 0) by (nonlinear_arith)
            requires
                tw >= 0,
                sh > 0,
        ;
    } else {
        assert(th * sw < tw * sh);
        assert(th * sw >= 0) by (nonlinear_arith)
            requires
                th >= 0,
                sw > 0,
        ;
        lemma_floor_ratio_bounded(th * sw, sh, tw);
    }
}

/// Under `Fill` both lengths are at least the target's (unless saturated)
/// and the limiting one equals it.
pub proof fn lemma_fill_size_bounds(sw: int, sh: int, tw: int, th: int)
    requires
        sw > 0,
        sh > 0,
        0 <= tw <= u32::MAX,
        0 <= th <= u32::MAX,
    ensures
        tw <= spec_fill_size(sw, sh, tw, th).0 <= u32::MAX,
        th <= spec_fill_size(sw, sh, tw, th).1 <= u32::MAX,
        spec_fill_size(sw, sh, tw, th).0 == tw || spec_fill_size(sw, sh, tw, th).1 == th,
{
    if tw * sh >= th * sw {
        lemma_floor_ratio_at_least(tw * sh, sw, th);
    } else {
        lemma_floor_ratio_at_least(th * sw, sh, tw);
    }
}

/// The `Integer` factor is at least 1, and either it is 1 or the source
/// scaled by it fits the target.
pub proof fn lemma_integer_factor_bounds(sw: int, sh: int, tw: int, th: int)
    requires
        sw > 0,
        sh > 0,
        0 <= tw <= u32::MAX,
        0 <= th <= u32::MAX,
        sw <= u32::MAX,
        sh <= u32::MAX,
    ensures
        spec_integer_factor(sw, sh, tw, th) >= 1,
        spec_integer_factor(sw, sh, tw, th) == 1 || (sw * spec_integer_factor(sw, sh, tw, th)
            <= tw && sh * spec_integer_factor(sw, sh, tw, th) <= th),
        0 <= sw * spec_integer_factor(sw, sh, tw, th) <= u32::MAX,
        0 <= sh * spec_integer_factor(sw, sh, tw, th) <= u32::MAX,
{
    let f = spec_integer_factor(sw, sh, tw, th);
    if f > 1 {
        lemma_factor_fits(sw, tw, f);
        lemma_factor_fits(sh, th, f);
    }
}

/// With a source and a target that both have area, `Fit` never exceeds the
/// target in either direction and matches it exactly in the direction whose
/// ratio limits the scale.
pub proof fn lemma_fit_within_target(sw: u32, sh: u32, tw: u32, th: u32)
    requires
        sw > 0,
        sh > 0,
        tw > 0,
        th > 0,
    ensures
        spec_placement(sw, sh, tw, th, ScaleMode::Fit).width <= tw,
        spec_placement(sw, sh, tw, th, ScaleMode::Fit).height <= th,
        spec_placement(sw, sh, tw, th, ScaleMode::Fit).width == tw || spec_placement(
            sw,
            sh,
            tw,
            th,
            ScaleMode::Fit,
        ).height == th,
{
    lemma_fit_size_bounds(sw as int, sh as int, tw as int, th as int);
}

/// With a source that has area, `Fill` covers the target: neither length is
/// below the target's, the limiting one equals it, and the placement is
/// pinned to the origin.
pub proof fn lemma_fill_covers_target(sw: u32, sh: u32, tw: u32, th: u32)
    requires
        sw > 0,
        sh > 0,
    ensures
        spec_placement(sw, sh, tw, th, ScaleMode::Fill).width >= tw,
        spec_placement(sw, sh, tw, th, ScaleMode::Fill).height >= th,
        spec_placement(sw, sh, tw, th, ScaleMode::Fill).width == tw || spec_placement(
            sw,
            sh,
            tw,
            th,
            ScaleMode::Fill,
        ).height == th,
        spec_placement(sw, sh, tw, th, ScaleMode::Fill).offset_x == 0,
        spec_placement(sw, sh, tw, th, ScaleMode::Fill).offset_y == 0,
{
    lemma_fill_size_bounds(sw as int, sh as int, tw as int, th as int);
}

/// `Stretch` places the image at the origin with exactly the target's size,
/// whatever the source's size is.
pub proof fn lemma_stretch_covers_target(sw: u32, sh: u32, tw: u32, th: u32)
    ensures
        spec_placement(sw, sh, tw, th, ScaleMode::Stretch) == (Placement {
            offset_x: 0,
            offset_y: 0,
            width: tw,
            height: th,
        }),
{
}

/// `Integer` multiplies both source lengths by one whole factor that is at
/// least 1. The factor is the largest that fits the target, or 1 when not
/// even the unscaled source fits.
pub proof fn lemma_integer_whole_factor(sw: u32, sh: u32, tw: u32, th: u32)
    requires
        sw > 0,
        sh > 0,
    ensures
        spec_integer_factor(sw as int, sh as int, tw as int, th as int) >= 1,
        spec_placement(sw, sh, tw, th, ScaleMode::Integer).width == sw * spec_integer_factor(
            sw as int,
            sh as int,
            tw as int,
            th as int,
        ),
        spec_placement(sw, sh, tw, th, ScaleMode::Integer).height == sh * spec_integer_factor(
            sw as int,
            sh as int,
            tw as int,
            th as int,
        ),
        sw * (spec_integer_factor(sw as int, sh as int, tw as int, th as int) + 1) > tw || sh * (
        spec_integer_factor(sw as int, sh as int, tw as int, th as int) + 1) > th,
{
    lemma_integer_factor_bounds(sw as int, sh as int, tw as int, th as int);
    let f = spec_integer_factor(sw as int, sh as int, tw as int, th as int);
    if (tw as int) / (sw as int) <= (th as int) / (sh as int) {
        lemma_next_factor_exceeds(sw as int, tw as int, f);
    } else {
        lemma_next_factor_exceeds(sh as int, th as int, f);
    }
}

/// A placement never starts outside the target: each offset is at most half
/// the target's length, and an image no larger than the target lies wholly
/// inside it.
pub proof fn lemma_placement_is_centered(sw: u32, sh: u32, tw: u32, th: u32, mode: ScaleMode)
    requires
        !spec_divides_by_zero(sw, sh, mode),
    ensures
        spec_placement(sw, sh, tw, th, mode).offset_x <= tw / 2,
        spec_placement(sw, sh, tw, th, mode).offset_y <= th / 2,
        spec_placement(sw, sh, tw, th, mode).width <= tw ==> spec_placement(
            sw,
            sh,
            tw,
            th,
            mode,
        ).offset_x + spec_placement(sw, sh, tw, th, mode).width <= tw,
        spec_placement(sw, sh, tw, th, mode).height <= th ==> spec_placement(
            sw,
            sh,
            tw,
            th,
            mode,
        ).offset_y + spec_placement(sw, sh, tw, th, mode).height <= th,
        spec_placement(sw, sh, tw, th, mode).width >= tw ==> spec_placement(
            sw,
            sh,
            tw,
            th,
            mode,
        ).offset_x == 0,
        spec_placement(sw, sh, tw, th, mode).height >= th ==> spec_placement(
            sw,
            sh,
            tw,
            th,
            mode,
        ).offset_y == 0,
{
    lemma_scaled_size_in_range(sw, sh, tw, th, mode);
}

/// `f >= t / s` implies `s * (f + 1) > t`.
proof fn lemma_next_factor_exceeds(s: int, t: int, f: int)
    by (nonlinear_arith)
    requires
        s > 0,
        t >= 0,
        f >= t / s,
    ensures
        s * (f + 1) > t,
{
}

/// `f <= t / s` implies `s * f <= t`.
proof fn lemma_factor_fits(s: int, t: int, f: int)
    by (nonlinear_arith)
    requires
        s > 0,
        t >= 0,
        0 <= f <= t / s,
    ensures
        0 <= s * f <= t,
{
}

/// `a <= b * d` implies `a / d <= b`.
proof fn lemma_floor_ratio_bounded(a: int, d: int, b: int)
    by (nonlinear_arith)
    requires
        d > 0,
        0 <= a <= b * d,
    ensures
        0 <= a / d <= b,
{
}

/// `a >= b * d` implies `a / d >= b`.
proof fn lemma_floor_ratio_at_least(a: int, d: int, b: int)
    by (nonlinear_arith)
    requires
        d > 0,
        a >= b * d,
    ensures
        a / d >= b,
{
}

/// The exact product of two 32-bit lengths.
pub(crate) fn area(a: u32, b: u32) -> (r: u64)
    ensures
        r == a * b,
{
    assert(a * b <= u32::MAX * u32::MAX) by (nonlinear_arith)
        requires
            a <= u32::MAX,
            b <= u32::MAX,
    ;
    a as u64 * b as u64
}

/// Centres `size` pixels in `target` pixels with saturating subtraction.
fn centered_offset(target: u32, size: u32) -> (r: u32)
    ensures
        r == spec_centered_offset(target as int, size as int),
{
    if size >= target {
        0
    } else {
        (target - size) / 2
    }
}

/// Cuts a 64-bit length off at `u32::MAX`.
fn saturate(value: u64) -> (r: u32)
    ensures
        r == spec_saturate(value as int),
{
    if value > u32::MAX as u64 {
        u32::MAX
    } else {
        value as u32
    }
}

/// Tells whether `mode` would divide by a zero source dimension.
fn divides_by_zero(sw: u32, sh: u32, mode: ScaleMode) -> (r: bool)
    ensures
        r == spec_divides_by_zero(sw, sh, mode),
{
    let ratio: bool = match mode {
        ScaleMode::Fit => true,
        ScaleMode::Fill => true,
        ScaleMode::Integer => true,
        _ => false,
    };
    ratio && (sw == 0 || sh == 0)
}

/// The scaled size; see [`spec_scaled_size`].
fn scaled_size(sw: u32, sh: u32, tw: u32, th: u32, mode: ScaleMode) -> (r: (u32, u32))
    requires
        !spec_divides_by_zero(sw, sh, mode),
    ensures
        r.0 == spec_scaled_size(sw, sh, tw, th, mode).0,
        r.1 == spec_scaled_size(sw, sh, tw, th, mode).1,
{
    proof {
        lemma_scaled_size_in_range(sw, sh, tw, th, mode);
    }
    match mode {
        ScaleMode::Stretch => (tw, th),
        ScaleMode::Unscaled => (sw, sh),
        ScaleMode::Fit => {
            let across: u64 = area(tw, sh);
            let down: u64 = area(th, sw);
            if across <= down {
                (tw, (across / sw as u64) as u32)
            } else {
                ((down / sh as u64) as u32, th)
            }
        },
        ScaleMode::Fill => {
            let across: u64 = area(tw, sh);
            let down: u64 = area(th, sw);
            if across >= down {
                (tw, saturate(across / sw as u64))
            } else {
                (saturate(down / sh as u64), th)
            }
        },
        ScaleMode::Integer => {
            let fx: u32 = tw / sw;
            let fy: u32 = th / sh;
            let smaller: u32 = if fx <= fy { fx } else { fy };
            let factor: u32 = if smaller < 1 { 1 } else { smaller };
            proof {
                lemma_integer_factor_bounds(sw as int, sh as int, tw as int, th as int);
            }
            (sw * factor, sh * factor)
        },
    }
}

/// Computes the placement of a source in a target, refusing to divide by a
/// zero source dimension.
///
/// The result is `Err(InvalidInput)` exactly when `mode` is `Fit`, `Fill` or
/// `Integer` and the source has no area; otherwise it is the placement of
/// [`spec_placement`]. A target without area is not an error.
pub fn compute_placement(
    source_w: u32,
    source_h: u32,
    target_w: u32,
    target_h: u32,
    mode: ScaleMode,
) -> (r: Result<Placement, RenderError>)
    ensures
        spec_divides_by_zero(source_w, source_h, mode) ==> r == Err::<Placement, RenderError>(
            RenderError::InvalidInput,
        ),
        !spec_divides_by_zero(source_w, source_h, mode) ==> r == Ok::<Placement, RenderError>(
            spec_placement(source_w, source_h, target_w, target_h, mode),
        ),
{
    if divides_by_zero(source_w, source_h, mode) {
        return Err(RenderError::InvalidInput);
    }
    let (width, height) = scaled_size(source_w, source_h, target_w, target_h, mode);
    Ok(
        Placement {
            offset_x: centered_offset(target_w, width),
            offset_y: centered_offset(target_h, height),
            width,
            height,
        },
    )
}

/// Computes where a `buffer_width`×`buffer_height` image lands in a
/// `window_width`×`window_height` window.
///
/// The result is `Err(InvalidInput)` exactly when `scale_mode` is `Fit`,
/// `Fill` or `Integer` and the buffer has no area: nothing is derived from a
/// division by zero. Otherwise it is
/// `Ok((offset_x, offset_y, scaled_width, scaled_height))`, the fields of
/// [`spec_placement`].
pub fn calculate_scaled_dimensions(
    buffer_width: u32,
    buffer_height: u32,
    window_width: u32,
    window_height: u32,
    scale_mode: ScaleMode,
) -> (r: Result<(u32, u32, u32, u32), RenderError>)
    ensures
        spec_divides_by_zero(buffer_width, buffer_height, scale_mode) ==> r == Err::<
            (u32, u32, u32, u32),
            RenderError,
        >(RenderError::InvalidInput),
        !spec_divides_by_zero(buffer_width, buffer_height, scale_mode) ==> r is Ok && ({
            let p = spec_placement(
                buffer_width,
                buffer_height,
                window_width,
                window_height,
                scale_mode,
            );
            r->Ok_0 == (p.offset_x, p.offset_y, p.width, p.height)
        }),
        r is Ok && scale_mode == ScaleMode::Stretch ==> r->Ok_0 == (
            0u32,
            0u32,
            window_width,
            window_height,
        ),
        r is Ok && scale_mode == ScaleMode::Unscaled ==> r->Ok_0.2 == buffer_width && r->Ok_0.3
            == buffer_height,
        r is Ok && scale_mode == ScaleMode::Fit ==> {
            &&& r->Ok_0.2 <= window_width
            &&& r->Ok_0.3 <= window_height
            &&& r->Ok_0.2 == window_width || r->Ok_0.3 == window_height
        },
        r is Ok && scale_mode == ScaleMode::Integer ==> {
            let factor = spec_integer_factor(
                buffer_width as int,
                buffer_height as int,
                window_width as int,
                window_height as int,
            );
            &&& factor >= 1
            &&& r->Ok_0.2 == buffer_width * factor
            &&& r->Ok_0.3 == buffer_height * factor
        },
        r is Ok ==> r->Ok_0.0 <= window_width / 2 && r->Ok_0.1 <= window_height / 2,
{
    match compute_placement(buffer_width, buffer_height, window_width, window_height, scale_mode) {
        Err(e) => Err(e),
        Ok(p) => {
            proof {
                lemma_scaled_size_in_range(
                    buffer_width,
                    buffer_height,
                    window_width,
                    window_height,
                    scale_mode,
                );
                if buffer_width > 0 && buffer_height > 0 {
                    lemma_fit_size_bounds(
                        buffer_width as int,
                        buffer_height as int,
                        window_width as int,
                        window_height as int,
                    );
                    lemma_integer_factor_bounds(
                        buffer_width as int,
                        buffer_height as int,
                        window_width as int,
                        window_height as int,
                    );
                }
            }
            Ok((p.offset_x, p.offset_y, p.width, p.height))
        },
    }
}

} // verus!
