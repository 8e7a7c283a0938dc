//! Squares on the screen: the region in which a target is searched for, and
//! the patch that is captured around a point.

use vstd::prelude::*;

verus! {

/// The least side of a search region.
pub const MIN_REGION_SIZE: u32 = 100;

/// The least side of a captured patch.
pub const MIN_PATCH_SIZE: u32 = 16;

/// `value` held within `lo..=hi`.
pub open spec fn spec_clamped(value: int, lo: int, hi: int) -> int {
    if value < lo {
        lo
    } else if value > hi {
        hi
    } else {
        value
    }
}

/// The left (or top) edge of a span of `size` that is centred on `center` as
/// far as a screen of `extent` allows: the centre is first moved onto the
/// screen, then the span is moved until it lies on the screen.
pub open spec fn span_start(extent: int, center: int, size: int) -> int {
    spec_clamped(spec_clamped(center, 0, extent - 1) - size / 2, 0, extent - size)
}

fn span_start_exec(extent: i32, center: i32, size: i32) -> (start: i32)
    requires
        1 <= size <= extent,
    ensures
        start == span_start(extent as int, center as int, size as int),
        0 <= start <= extent - size,
{
    let on_screen = if center < 0 {
        0
    } else if center > extent - 1 {
        extent - 1
    } else {
        center
    };
    let wanted = on_screen - size / 2;
    if wanted < 0 {
        0
    } else if wanted > extent - size {
        extent - size
    } else {
        wanted
    }
}

/// The side of the region that is searched when `region_size` is asked for.
pub open spec fn region_side(region_size: u32) -> int {
    if region_size < MIN_REGION_SIZE {
        MIN_REGION_SIZE as int
    } else {
        region_size as int
    }
}

/// The square of side `region_side(region_size)` around a point, moved so that
/// it lies on a screen of `screen_w` by `screen_h`, as left, top, width and
/// height. There is none when the screen has no size or is smaller than the square.
pub open spec fn spec_region_around_point(
    screen_w: i32,
    screen_h: i32,
    center_x: i32,
    center_y: i32,
    region_size: u32,
) -> Option<(u32, u32, u32, u32)> {
    let side = region_side(region_size);
    if screen_w <= 0 || screen_h <= 0 || side > screen_w || side > screen_h {
        None
    } else {
        Some(
            (
                span_start(screen_w as int, center_x as int, side) as u32,
                span_start(screen_h as int, center_y as int, side) as u32,
                side as u32,
                side as u32,
            ),
        )
    }
}

/// The region in which a target is searched for around an anchor.
pub fn compute_region_around_point(
    screen_w: i32,
    screen_h: i32,
    center_x: i32,
    center_y: i32,
    region_size: u32,
) -> (region: Option<(u32, u32, u32, u32)>)
    ensures
        region == spec_region_around_point(screen_w, screen_h, center_x, center_y, region_size),
        region matches Some(r) ==> r.0 + r.2 <= screen_w && r.1 + r.3 <= screen_h,
{
    if screen_w <= 0 || screen_h <= 0 {
        return None;
    }
    let wanted = if region_size < MIN_REGION_SIZE {
        MIN_REGION_SIZE
    } else {
        region_size
    };
    if wanted > screen_w as u32 || wanted > screen_h as u32 {
        return None;
    }
    let side = wanted as i32;
    let left = span_start_exec(screen_w, center_x, side);
    let top = span_start_exec(screen_h, center_y, side);
    Some((left as u32, top as u32, wanted, wanted))
}

/// The side of the patch that is captured when `patch_size` is asked for.
pub open spec fn patch_side(patch_size: u32) -> int {
    if patch_size < MIN_PATCH_SIZE {
        MIN_PATCH_SIZE as int
    } else {
        patch_size as int
    }
}

/// The square that is captured around a point as left, top and side. There is
/// none when the screen has no size or is smaller than the patch.
pub open spec fn spec_patch_around_point(
    screen_w: i32,
    screen_h: i32,
    center_x: i32,
    center_y: i32,
    patch_size: u32,
) -> Option<(i32, i32, i32)> {
    let side = patch_side(patch_size);
    if screen_w <= 0 || screen_h <= 0 || side > screen_w || side > screen_h {
        None
    } else {
        Some(
            (
                spec_clamped(center_x - side / 2, 0, screen_w - side) as i32,
                spec_clamped(center_y - side / 2, 0, screen_h - side) as i32,
                side as i32,
            ),
        )
    }
}

fn patch_start(extent: i32, center: i32, side: i32) -> (start: i32)
    requires
        1 <= side <= extent,
    ensures
        start == spec_clamped(center - side / 2, 0, extent - side),
{
    let wanted = center as i64 - (side / 2) as i64;
    if wanted < 0 {
        0
    } else if wanted > (extent - side) as i64 {
        extent - side
    } else {
        wanted as i32
    }
}

/// The square of the screen that a patch around a point is captured from.
pub fn compute_patch_around_point(
    screen_w: i32,
    screen_h: i32,
    center_x: i32,
    center_y: i32,
    patch_size: u32,
) -> (patch: Option<(i32, i32, i32)>)
    ensures
        patch == spec_patch_around_point(screen_w, screen_h, center_x, center_y, patch_size),
        patch matches Some(p) ==> 0 <= p.0 && 0 <= p.1 && p.0 + p.2 <= screen_w && p.1 + p.2 <= screen_h,
{
    if screen_w <= 0 || screen_h <= 0 {
        return None;
    }
    let wanted = if patch_size < MIN_PATCH_SIZE {
        MIN_PATCH_SIZE
    } else {
        patch_size
    };
    if wanted > screen_w as u32 || wanted > screen_h as u32 {
        return None;
    }
    let side = wanted as i32;
    Some((patch_start(screen_w, center_x, side), patch_start(screen_h, center_y, side), side))
}

} // verus!
