//! Where the clipboard window opens: near the mouse cursor and inside the
//! monitor, or centred on the monitor when the cursor position is unknown.
use vstd::prelude::*;

verus! {

/// Width of the clipboard window, in physical pixels.
pub const WINDOW_WIDTH: i32 = 360;

/// Height of the clipboard window, in physical pixels.
pub const WINDOW_HEIGHT: i32 = 480;

/// Gap kept between the window and the monitor's edges.
pub const EDGE_MARGIN: i32 = 10;

/// How far up and left of the cursor the window's corner goes.
pub const CURSOR_OFFSET: i32 = 20;

/// The position and size of a monitor, in physical pixels.
#[derive(PartialEq, Eq, Structural, Clone, Copy, Debug)]
pub struct MonitorArea {
    pub x: i32,
    pub y: i32,
    pub width: i32,
    pub height: i32,
}

/// The area assumed when no monitor can be found: 1920×1080 at the origin.
pub open spec fn fallback_area() -> MonitorArea {
    MonitorArea { x: 0, y: 0, width: 1920, height: 1080 }
}

/// The monitor to place the window on.
pub open spec fn area_of(monitor: Option<MonitorArea>) -> MonitorArea {
    match monitor {
        Some(m) => m,
        None => fallback_area(),
    }
}

/// `v` kept at most `hi` and at least `lo`; where the range is empty
/// (`hi < lo`, a monitor too small for the window and its margins) the
/// lower bound wins, so the window's top-left corner stays inside the margin.
/// Where `lo <= hi` this is what `Ord::clamp` computes.
pub open spec fn clamp_spec(v: int, lo: int, hi: int) -> int {
    let capped = if v > hi {
        hi
    } else {
        v
    };
    if capped < lo {
        lo
    } else {
        capped
    }
}

/// Half of `v`, rounded toward zero as Rust's integer division does.
pub open spec fn half_toward_zero(v: int) -> int {
    if v >= 0 {
        v / 2
    } else {
        -((-v) / 2)
    }
}

/// `v` fits in an `i32`.
pub open spec fn fits(v: int) -> bool {
    i32::MIN <= v <= i32::MAX
}

/// The placement along one axis can be computed: every intermediate sum fits
/// in an `i32`.
pub open spec fn axis_defined(start: int, extent: int, window: int, cursor: Option<int>) -> bool {
    match cursor {
        Some(c) => {
            &&& fits(c - CURSOR_OFFSET)
            &&& fits(start + EDGE_MARGIN)
            &&& fits(start + extent)
            &&& fits(start + extent - window)
            &&& fits(start + extent - window - EDGE_MARGIN)
        },
        None => {
            &&& fits(extent - window)
            &&& fits(start + half_toward_zero(extent - window))
        },
    }
}

/// Where the window starts along one axis: the cursor position less the
/// offset, kept between the margins; or centred when there is no cursor.
pub open spec fn axis_origin(start: int, extent: int, window: int, cursor: Option<int>) -> int {
    match cursor {
        Some(c) => clamp_spec(
            c - CURSOR_OFFSET,
            start + EDGE_MARGIN,
            start + extent - window - EDGE_MARGIN,
        ),
        None => start + half_toward_zero(extent - window),
    }
}

/// The cursor's x coordinate, if known.
pub open spec fn cursor_x(cursor: Option<(i32, i32)>) -> Option<int> {
    match cursor {
        Some(p) => Some(p.0 as int),
        None => None,
    }
}

/// The cursor's y coordinate, if known.
pub open spec fn cursor_y(cursor: Option<(i32, i32)>) -> Option<int> {
    match cursor {
        Some(p) => Some(p.1 as int),
        None => None,
    }
}

/// The window can be placed without overflow.
pub open spec fn placement_defined(monitor: Option<MonitorArea>, cursor: Option<(i32, i32)>) -> bool {
    let m = area_of(monitor);
    &&& axis_defined(m.x as int, m.width as int, WINDOW_WIDTH as int, cursor_x(cursor))
    &&& axis_defined(m.y as int, m.height as int, WINDOW_HEIGHT as int, cursor_y(cursor))
}

/// The top-left corner of the window.
pub open spec fn placement_spec(monitor: Option<MonitorArea>, cursor: Option<(i32, i32)>) -> (int, int) {
    let m = area_of(monitor);
    (
        axis_origin(m.x as int, m.width as int, WINDOW_WIDTH as int, cursor_x(cursor)),
        axis_origin(m.y as int, m.height as int, WINDOW_HEIGHT as int, cursor_y(cursor)),
    )
}

fn clamp_i32(v: i32, lo: i32, hi: i32) -> (r: i32)
    ensures
        r == clamp_spec(v as int, lo as int, hi as int),
{
    let capped = if v > hi {
        hi
    } else {
        v
    };
    if capped < lo {
        lo
    } else {
        capped
    }
}

fn axis(start: i32, extent: i32, window: i32, cursor: Option<i32>) -> (r: i32)
    requires
        window == WINDOW_WIDTH || window == WINDOW_HEIGHT,
        axis_defined(
            start as int,
            extent as int,
            window as int,
            match cursor {
                Some(c) => Some(c as int),
                None => None,
            },
        ),
    ensures
        r == axis_origin(
            start as int,
            extent as int,
            window as int,
            match cursor {
                Some(c) => Some(c as int),
                None => None,
            },
        ),
{
    match cursor {
        Some(c) => clamp_i32(
            c - CURSOR_OFFSET,
            start + EDGE_MARGIN,
            start + extent - window - EDGE_MARGIN,
        ),
        None => start + (extent - window) / 2,
    }
}

/// The top-left corner of the window near the cursor (or centred without
/// one) on `monitor`, or on a 1920×1080 area when no monitor is known.
/// With a cursor the window's corner stays `EDGE_MARGIN` pixels inside the
/// monitor, and on a monitor large enough for the window and its margins
/// the whole window does.
pub fn position_window(monitor: Option<MonitorArea>, cursor: Option<(i32, i32)>) -> (r: (i32, i32))
    requires
        placement_defined(monitor, cursor),
    ensures
        (r.0 as int, r.1 as int) == placement_spec(monitor, cursor),
        cursor is Some ==> {
            let m = area_of(monitor);
            &&& m.x + EDGE_MARGIN <= r.0
            &&& m.y + EDGE_MARGIN <= r.1
            &&& m.width >= WINDOW_WIDTH + 2 * EDGE_MARGIN ==> r.0 + WINDOW_WIDTH + EDGE_MARGIN
                <= m.x + m.width
            &&& m.height >= WINDOW_HEIGHT + 2 * EDGE_MARGIN ==> r.1 + WINDOW_HEIGHT
                + EDGE_MARGIN <= m.y + m.height
        },
        cursor is None ==> {
            let m = area_of(monitor);
            &&& r.0 == m.x + (m.width - WINDOW_WIDTH) / 2 || r.0 == m.x + (m.width - WINDOW_WIDTH
                + 1) / 2
            &&& r.1 == m.y + (m.height - WINDOW_HEIGHT) / 2 || r.1 == m.y + (m.height
                - WINDOW_HEIGHT + 1) / 2
        },
{
    proof {
        lemma_centred_without_cursor(monitor);
    }
    let m = match monitor {
        Some(m) => m,
        None => MonitorArea { x: 0, y: 0, width: 1920, height: 1080 },
    };
    let (cx, cy) = match cursor {
        Some((a, b)) => (Some(a), Some(b)),
        None => (None, None),
    };
    let x = axis(m.x, m.width, WINDOW_WIDTH, cx);
    let y = axis(m.y, m.height, WINDOW_HEIGHT, cy);
    (x, y)
}

/// Without a cursor the window is centred on the monitor it is placed on:
/// the gaps it leaves on its left and right (and above and below) differ by
/// at most one pixel, and on a monitor larger than the window it lies
/// inside the monitor.
pub proof fn lemma_centred_without_cursor(monitor: Option<MonitorArea>)
    ensures
        ({
            let m = area_of(monitor);
            let r = placement_spec(monitor, None);
            let left = r.0 - m.x;
            let right = m.x + m.width - (r.0 + WINDOW_WIDTH);
            let top = r.1 - m.y;
            let bottom = m.y + m.height - (r.1 + WINDOW_HEIGHT);
            &&& -1 <= right - left <= 1
            &&& -1 <= bottom - top <= 1
            &&& m.width >= WINDOW_WIDTH ==> 0 <= left && 0 <= right
            &&& m.height >= WINDOW_HEIGHT ==> 0 <= top && 0 <= bottom
            &&& r.0 == m.x + (m.width - WINDOW_WIDTH) / 2 || r.0 == m.x + (m.width - WINDOW_WIDTH
                + 1) / 2
            &&& r.1 == m.y + (m.height - WINDOW_HEIGHT) / 2 || r.1 == m.y + (m.height
                - WINDOW_HEIGHT + 1) / 2
        }),
{
}

/// With a cursor the window's corner goes `CURSOR_OFFSET` pixels up and
/// left of it, unless that would leave the margin of the monitor: then it
/// stops at the margin it would cross (the left or top one first, on a
/// monitor too small for the window and its margins).
pub proof fn lemma_follows_cursor(monitor: Option<MonitorArea>, cursor: (i32, i32))
    ensures
        ({
            let m = area_of(monitor);
            let r = placement_spec(monitor, Some(cursor));
            let want_x = cursor.0 - CURSOR_OFFSET;
            let want_y = cursor.1 - CURSOR_OFFSET;
            let lo_x = m.x + EDGE_MARGIN;
            let hi_x = m.x + m.width - WINDOW_WIDTH - EDGE_MARGIN;
            let lo_y = m.y + EDGE_MARGIN;
            let hi_y = m.y + m.height - WINDOW_HEIGHT - EDGE_MARGIN;
            &&& lo_x <= want_x <= hi_x ==> r.0 == want_x
            &&& want_x < lo_x ==> r.0 == lo_x
            &&& lo_x <= hi_x < want_x ==> r.0 == hi_x
            &&& hi_x < lo_x ==> r.0 == lo_x
            &&& lo_y <= want_y <= hi_y ==> r.1 == want_y
            &&& want_y < lo_y ==> r.1 == lo_y
            &&& lo_y <= hi_y < want_y ==> r.1 == hi_y
            &&& hi_y < lo_y ==> r.1 == lo_y
        }),
{
}

/// Whether the window can be placed for these inputs without overflow.
pub fn placement_is_defined(monitor: Option<MonitorArea>, cursor: Option<(i32, i32)>) -> (r: bool)
    ensures
        r == placement_defined(monitor, cursor),
{
    let m = match monitor {
        Some(m) => m,
        None => MonitorArea { x: 0, y: 0, width: 1920, height: 1080 },
    };
    let (cx, cy) = match cursor {
        Some((a, b)) => (Some(a as i64), Some(b as i64)),
        None => (None, None),
    };
    axis_is_defined(m.x as i64, m.width as i64, WINDOW_WIDTH as i64, cx)
        && axis_is_defined(m.y as i64, m.height as i64, WINDOW_HEIGHT as i64, cy)
}

fn fits_i32(v: i64) -> (r: bool)
    ensures
        r == fits(v as int),
{
    -2147483648 <= v && v <= 2147483647
}

fn axis_is_defined(start: i64, extent: i64, window: i64, cursor: Option<i64>) -> (r: bool)
    requires
        fits(start as int),
        fits(extent as int),
        window == WINDOW_WIDTH || window == WINDOW_HEIGHT,
        cursor matches Some(c) ==> fits(c as int),
    ensures
        r == axis_defined(
            start as int,
            extent as int,
            window as int,
            match cursor {
                Some(c) => Some(c as int),
                None => None,
            },
        ),
{
    match cursor {
        Some(c) => {
            fits_i32(c - 20) && fits_i32(start + 10) && fits_i32(start + extent) && fits_i32(
                start + extent - window,
            ) && fits_i32(start + extent - window - 10)
        },
        None => {
            let d = extent - window;
            fits_i32(d) && fits_i32(start + d / 2)
        },
    }
}

/// The window's corner, or `None` where the computation would overflow an
/// `i32`.
pub fn window_origin_checked(monitor: Option<MonitorArea>, cursor: Option<(i32, i32)>) -> (r: Option<(i32, i32)>)
    ensures
        r is Some <==> placement_defined(monitor, cursor),
        r matches Some(p) ==> (p.0 as int, p.1 as int) == placement_spec(monitor, cursor),
{
    if placement_is_defined(monitor, cursor) {
        Some(position_window(monitor, cursor))
    } else {
        None
    }
}

} // verus!
