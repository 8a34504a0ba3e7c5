use vstd::prelude::*;

use vstd::arithmetic::div_mod::{lemma_fundamental_div_mod, lemma_mod_bound};

use crate::geometry::{
    floor_div, lemma_ceil_tolerance, lemma_unscaled_monotone, lemma_unscaled_tolerance, lemma_unscaled_up_bounds,
    unscale, unscale_up, unscaled, unscaled_up, valid_scale, within, Rect,
    DIV_LIMIT, NATIVE_LIMIT,
};
use crate::placement::{DEFAULT_SCREEN_HEIGHT, DEFAULT_SCREEN_WIDTH};

verus! {

/// One attached display in native coordinates.
#[derive(Clone, Copy, Debug, PartialEq, Eq, Structural)]
pub struct MonitorInfo {
    pub frame: Rect,
    pub visible_frame: Rect,
    pub scale_percent: u32,
}

impl MonitorInfo {
    /// The usable area lies inside the full frame; everything fits the native range.
    pub open spec fn wf(self) -> bool {
        &&& self.frame.edges_within(NATIVE_LIMIT as int)
        &&& self.visible_frame.edges_within(NATIVE_LIMIT as int)
        &&& self.frame.encloses(self.visible_frame)
        &&& valid_scale(self.scale_percent)
    }
}

/// The monitor under the cursor, its frames and the cursor itself, all in
/// logical top-left-origin coordinates.
#[derive(Clone, Copy, Debug, PartialEq, Eq, Structural)]
pub struct ScreenInfoAtCursor {
    pub screen_x: i64,
    pub screen_y: i64,
    pub screen_width: i64,
    pub screen_height: i64,
    pub visible_x: i64,
    pub visible_y: i64,
    pub visible_width: i64,
    pub visible_height: i64,
    pub cursor_x: i64,
    pub cursor_y: i64,
    pub scale_percent: u32,
    /// The primary display's native height, which flips logical positions back
    /// to native ones when windows are moved.
    pub primary_height: i64,
}

/// The monitor under the cursor with its frames left in native coordinates,
/// except for the top of the usable area, which is flipped to top-left origin.
#[derive(Clone, Copy, Debug, PartialEq, Eq, Structural)]
pub struct MonitorAtCursor {
    pub x: i64,
    pub y: i64,
    pub width: i64,
    pub height: i64,
    pub visible_x: i64,
    pub visible_y: i64,
    pub visible_width: i64,
    pub visible_height: i64,
    pub scale_percent: u32,
    pub cursor_x: i64,
    pub cursor_y: i64,
    pub primary_height: i64,
}

/// Distances between the full frame and the usable frame on each side.
#[derive(Clone, Copy, Debug, PartialEq, Eq, Structural)]
pub struct ScreenVisibleArea {
    pub top_inset: i64,
    pub bottom_inset: i64,
    pub left_inset: i64,
    pub right_inset: i64,
}

/// Bound on every logical value derived from native values.
pub open spec fn logical_limit() -> int {
    1000 * NATIVE_LIMIT
}

pub open spec fn all_wf(monitors: Seq<MonitorInfo>) -> bool {
    forall|i: int| 0 <= i < monitors.len() ==> #[trigger] monitors[i].wf()
}

/// Native rectangle to logical space: the vertical origin moves from the
/// bottom of the primary display to its top, and each edge is divided by the
/// scale and rounded down; the extents are the distances between the rounded
/// edges, so containment survives the conversion.
pub open spec fn logical_rect(r: Rect, primary_native_height: int, scale: int) -> (int, int, int, int) {
    let left = unscaled(r.x as int, scale);
    let right = unscaled_up(r.x + r.width, scale);
    let top = unscaled(primary_native_height - r.y - r.height, scale);
    let bottom = unscaled_up(primary_native_height - r.y, scale);
    (left, top, right - left, bottom - top)
}

/// Native point to logical space.
pub open spec fn logical_point(px: int, py: int, primary_native_height: int, scale: int) -> (int, int) {
    (unscaled(px, scale), unscaled_up(primary_native_height - py, scale))
}

/// Where a window whose top edge sits at logical `y` goes in native space:
/// the logical offset scaled back up, rounded down, measured from the top of
/// the primary display.
pub open spec fn native_top(y: int, primary_native_height: int, scale: int) -> int {
    primary_native_height - (y * scale) / 100
}

/// Logical rectangle back to native space at unit scale.
pub open spec fn native_rect(x: int, y: int, width: int, height: int, primary_native_height: int) -> (int, int, int, int) {
    (x, primary_native_height - y - height, width, height)
}

/// Index of the first monitor whose frame holds the point, if any.
pub open spec fn first_monitor_at(monitors: Seq<MonitorInfo>, px: int, py: int) -> Option<int> {
    if exists|i: int| 0 <= i < monitors.len() && #[trigger] monitors[i].frame.contains_spec(px, py) {
        Some(choose|i: int| {
            &&& 0 <= i < monitors.len()
            &&& #[trigger] monitors[i].frame.contains_spec(px, py)
            &&& forall|j: int| 0 <= j < i ==> !(#[trigger] monitors[j].frame.contains_spec(px, py))
        })
    } else {
        None
    }
}

/// The logical view of the screen under the cursor, given the monitor that holds it.
pub open spec fn screen_info_of(m: MonitorInfo, primary_native_height: int, px: int, py: int) -> ScreenInfoAtCursor {
    let s = m.scale_percent as int;
    let f = logical_rect(m.frame, primary_native_height, s);
    let v = logical_rect(m.visible_frame, primary_native_height, s);
    let c = logical_point(px, py, primary_native_height, s);
    ScreenInfoAtCursor {
        screen_x: f.0 as i64,
        screen_y: f.1 as i64,
        screen_width: f.2 as i64,
        screen_height: f.3 as i64,
        visible_x: v.0 as i64,
        visible_y: v.1 as i64,
        visible_width: v.2 as i64,
        visible_height: v.3 as i64,
        cursor_x: c.0 as i64,
        cursor_y: c.1 as i64,
        scale_percent: m.scale_percent,
        primary_height: primary_native_height as i64,
    }
}

impl ScreenInfoAtCursor {
    /// Every value is within the range that native inputs can produce.
    pub open spec fn bounded(self) -> bool {
        &&& within(self.screen_x as int, logical_limit())
        &&& within(self.screen_y as int, logical_limit())
        &&& 0 <= self.screen_width <= logical_limit()
        &&& 0 <= self.screen_height <= logical_limit()
        &&& within(self.visible_x as int, logical_limit())
        &&& within(self.visible_y as int, logical_limit())
        &&& 0 <= self.visible_width <= logical_limit()
        &&& 0 <= self.visible_height <= logical_limit()
        &&& within(self.cursor_x as int, logical_limit())
        &&& within(self.cursor_y as int, logical_limit())
        &&& within(self.primary_height as int, NATIVE_LIMIT as int)
    }

    /// The usable frame lies inside the full frame, and the cursor inside the
    /// full frame as native half-open containment reads after the vertical
    /// flip: the near edge holds it horizontally, the far edge vertically.
    pub open spec fn consistent(self) -> bool {
        &&& self.frame_spec().encloses(self.visible_spec())
        &&& self.screen_x <= self.cursor_x < self.screen_x + self.screen_width
        &&& self.screen_y < self.cursor_y <= self.screen_y + self.screen_height
    }

    /// The usable frame lies inside the full frame, and the cursor inside the
    /// full frame by half-open containment on both axes, as for a monitor
    /// reported with a top-left origin.
    pub open spec fn consistent_top_left(self) -> bool {
        &&& self.frame_spec().encloses(self.visible_spec())
        &&& self.screen_x <= self.cursor_x < self.screen_x + self.screen_width
        &&& self.screen_y <= self.cursor_y < self.screen_y + self.screen_height
    }

    /// The full frame as a rectangle.
    pub open spec fn frame_spec(self) -> Rect {
        Rect { x: self.screen_x, y: self.screen_y, width: self.screen_width, height: self.screen_height }
    }

    /// The usable frame as a rectangle.
    pub open spec fn visible_spec(self) -> Rect {
        Rect { x: self.visible_x, y: self.visible_y, width: self.visible_width, height: self.visible_height }
    }

    pub fn frame(&self) -> (r: Rect)
        ensures
            r == self.frame_spec(),
    {
        Rect { x: self.screen_x, y: self.screen_y, width: self.screen_width, height: self.screen_height }
    }

    pub fn visible(&self) -> (r: Rect)
        ensures
            r == self.visible_spec(),
    {
        Rect { x: self.visible_x, y: self.visible_y, width: self.visible_width, height: self.visible_height }
    }
}

/// The insets of the usable frame within the full frame.
pub open spec fn insets_of(info: ScreenInfoAtCursor) -> ScreenVisibleArea {
    ScreenVisibleArea {
        top_inset: (info.visible_y - info.screen_y) as i64,
        bottom_inset: ((info.screen_y + info.screen_height) - (info.visible_y + info.visible_height)) as i64,
        left_inset: (info.visible_x - info.screen_x) as i64,
        right_inset: ((info.screen_x + info.screen_width) - (info.visible_x + info.visible_width)) as i64,
    }
}

/// Converts a native rectangle to logical coordinates.
pub fn to_logical_rect(r: Rect, primary_native_height: i64, scale_percent: u32) -> (out: Rect)
    requires
        r.edges_within(NATIVE_LIMIT as int),
        within(primary_native_height as int, NATIVE_LIMIT as int),
        valid_scale(scale_percent),
    ensures
        (out.x as int, out.y as int, out.width as int, out.height as int)
            == logical_rect(r, primary_native_height as int, scale_percent as int),
        out.bounded(logical_limit()),
{
    let left = unscale(r.x, scale_percent);
    let right = unscale_up(r.x + r.width, scale_percent);
    let top = unscale(primary_native_height - r.y - r.height, scale_percent);
    let bottom = unscale_up(primary_native_height - r.y, scale_percent);
    proof {
        let s = scale_percent as int;
        lemma_unscaled_monotone(r.x as int, r.x + r.width, s);
        lemma_unscaled_up_bounds(r.x + r.width, r.x + r.width, s);
        lemma_unscaled_monotone(primary_native_height - r.y - r.height, primary_native_height - r.y, s);
        lemma_unscaled_up_bounds(primary_native_height - r.y, primary_native_height - r.y, s);
    }
    Rect { x: left, y: top, width: right - left, height: bottom - top }
}

/// Converts a native point to logical coordinates.
pub fn to_logical_point(px: i64, py: i64, primary_native_height: i64, scale_percent: u32) -> (out: (i64, i64))
    requires
        within(px as int, NATIVE_LIMIT as int),
        within(py as int, NATIVE_LIMIT as int),
        within(primary_native_height as int, NATIVE_LIMIT as int),
        valid_scale(scale_percent),
    ensures
        (out.0 as int, out.1 as int) == logical_point(px as int, py as int, primary_native_height as int, scale_percent as int),
        within(out.0 as int, logical_limit()),
        within(out.1 as int, logical_limit()),
{
    (unscale(px, scale_percent), unscale_up(primary_native_height - py, scale_percent))
}

/// The native vertical coordinate of a window's top edge placed at logical `y`.
pub fn native_top_left_y(y: i64, primary_height: i64, scale_percent: u32) -> (r: i64)
    requires
        within(y as int, 4 * logical_limit()),
        within(primary_height as int, NATIVE_LIMIT as int),
        valid_scale(scale_percent),
    ensures
        r == native_top(y as int, primary_height as int, scale_percent as int),
{
    proof {
        assert(within(y * scale_percent, DIV_LIMIT as int)) by (nonlinear_arith)
            requires within(y as int, 4 * logical_limit()), 1 <= scale_percent <= 1000;
    }
    let up = floor_div(y * scale_percent as i64, 100);
    primary_height - up
}

/// Finds the first monitor whose frame holds the point.
pub fn monitor_index_at(monitors: &Vec<MonitorInfo>, px: i64, py: i64) -> (r: Option<usize>)
    requires
        all_wf(monitors@),
    ensures
        r matches Some(i) ==> i < monitors@.len() && first_monitor_at(monitors@, px as int, py as int) == Some(i as int)
            && monitors@[i as int].frame.contains_spec(px as int, py as int),
        r is None ==> first_monitor_at(monitors@, px as int, py as int) is None,
{
    let mut i: usize = 0;
    while i < monitors.len()
        invariant
            i <= monitors@.len(),
            all_wf(monitors@),
            forall|j: int| 0 <= j < i ==> !(#[trigger] monitors@[j].frame.contains_spec(px as int, py as int)),
        decreases monitors@.len() - i,
    {
        assert(monitors@[i as int].wf());
        if monitors[i].frame.contains(px, py) {
            proof {
                lemma_first_monitor_is(monitors@, px as int, py as int, i as int);
            }
            return Some(i);
        }
        i = i + 1;
    }
    None
}

proof fn lemma_first_monitor_is(monitors: Seq<MonitorInfo>, px: int, py: int, i: int)
    requires
        0 <= i < monitors.len(),
        monitors[i].frame.contains_spec(px, py),
        forall|j: int| 0 <= j < i ==> !(#[trigger] monitors[j].frame.contains_spec(px, py)),
    ensures
        first_monitor_at(monitors, px, py) == Some(i),
{
    let k = choose|k: int| {
        &&& 0 <= k < monitors.len()
        &&& #[trigger] monitors[k].frame.contains_spec(px, py)
        &&& forall|j: int| 0 <= j < k ==> !(#[trigger] monitors[j].frame.contains_spec(px, py))
    };
    assert(k == i) by {
        if k < i {
            assert(!monitors[k].frame.contains_spec(px, py));
        } else if k > i {
            assert(!monitors[i].frame.contains_spec(px, py));
        }
    }
}

/// Converting a monitor that holds the cursor keeps the usable area inside the
/// full frame and the cursor within the full frame, at every scale.
pub proof fn lemma_conversion_keeps_containment(m: MonitorInfo, primary_native_height: int, px: int, py: int)
    requires
        m.frame.encloses(m.visible_frame),
        m.frame.contains_spec(px, py),
        valid_scale(m.scale_percent),
    ensures
        screen_info_fits(m, primary_native_height, px, py) ==> screen_info_of(m, primary_native_height, px, py).consistent(),
{
    let s = m.scale_percent as int;
    let f = m.frame;
    let v = m.visible_frame;
    let ph = primary_native_height;
    lemma_unscaled_monotone(f.x as int, v.x as int, s);
    lemma_unscaled_up_bounds(v.x + v.width, f.x + f.width, s);
    lemma_unscaled_monotone(ph - f.y - f.height, ph - v.y - v.height, s);
    lemma_unscaled_up_bounds(ph - v.y, ph - f.y, s);
    lemma_unscaled_monotone(f.x as int, px, s);
    lemma_unscaled_up_bounds(px, f.x + f.width, s);
    lemma_unscaled_up_bounds(ph - f.y - f.height, ph - py, s);
    lemma_unscaled_up_bounds(ph - py, ph - f.y, s);
}

/// The converted values fit the integer fields unchanged.
pub open spec fn screen_info_fits(m: MonitorInfo, primary_native_height: int, px: int, py: int) -> bool {
    let s = m.scale_percent as int;
    let f = logical_rect(m.frame, primary_native_height, s);
    let v = logical_rect(m.visible_frame, primary_native_height, s);
    let c = logical_point(px, py, primary_native_height, s);
    &&& within(f.0, logical_limit()) &&& within(f.1, logical_limit())
    &&& within(f.2, logical_limit()) &&& within(f.3, logical_limit())
    &&& within(v.0, logical_limit()) &&& within(v.1, logical_limit())
    &&& within(v.2, logical_limit()) &&& within(v.3, logical_limit())
    &&& within(c.0, logical_limit()) &&& within(c.1, logical_limit())
    &&& within(primary_native_height, NATIVE_LIMIT as int)
}

/// Locates the monitor under the native cursor position and describes it in
/// logical coordinates. The first monitor is the primary display, whose height
/// anchors the vertical flip. No monitor holding the cursor gives `None`.
/// The usable area stays inside the full frame and the cursor within it.
pub fn get_screen_info_at_cursor(monitors: &Vec<MonitorInfo>, cursor_x: i64, cursor_y: i64) -> (r: Option<ScreenInfoAtCursor>)
    requires
        all_wf(monitors@),
    ensures
        r == (match first_monitor_at(monitors@, cursor_x as int, cursor_y as int) {
            Some(i) => Some(screen_info_of(monitors@[i], monitors@[0].frame.height as int, cursor_x as int, cursor_y as int)),
            None => None::<ScreenInfoAtCursor>,
        }),
        r matches Some(info) ==> info.bounded() && info.consistent(),
{
    match monitor_index_at(monitors, cursor_x, cursor_y) {
        None => None,
        Some(i) => {
            assert(monitors@[0].wf());
            assert(monitors@[i as int].wf());
            Some(screen_info_for(monitors[i], monitors[0].frame.height, cursor_x, cursor_y))
        },
    }
}

/// The logical view of one monitor that holds the cursor.
fn screen_info_for(m: MonitorInfo, primary_height: i64, cursor_x: i64, cursor_y: i64) -> (r: ScreenInfoAtCursor)
    requires
        m.wf(),
        within(primary_height as int, NATIVE_LIMIT as int),
        m.frame.contains_spec(cursor_x as int, cursor_y as int),
    ensures
        r == screen_info_of(m, primary_height as int, cursor_x as int, cursor_y as int),
        r.bounded(),
        r.consistent(),
{
    let f = to_logical_rect(m.frame, primary_height, m.scale_percent);
    let v = to_logical_rect(m.visible_frame, primary_height, m.scale_percent);
    let c = to_logical_point(cursor_x, cursor_y, primary_height, m.scale_percent);
    proof {
        lemma_conversion_keeps_containment(m, primary_height as int, cursor_x as int, cursor_y as int);
    }
    ScreenInfoAtCursor {
        screen_x: f.x,
        screen_y: f.y,
        screen_width: f.width,
        screen_height: f.height,
        visible_x: v.x,
        visible_y: v.y,
        visible_width: v.width,
        visible_height: v.height,
        cursor_x: c.0,
        cursor_y: c.1,
        scale_percent: m.scale_percent,
        primary_height,
    }
}

/// Locates the monitor under the native cursor position and reports its frames
/// in native coordinates, with the top of the usable area flipped to
/// top-left origin. No monitor holding the cursor gives `None`.
pub fn get_monitor_at_cursor(monitors: &Vec<MonitorInfo>, cursor_x: i64, cursor_y: i64) -> (r: Option<MonitorAtCursor>)
    requires
        all_wf(monitors@),
    ensures
        r matches Some(m) ==> {
            let i = first_monitor_at(monitors@, cursor_x as int, cursor_y as int)->Some_0;
            let mon = monitors@[i];
            let ph = monitors@[0].frame.height;
            &&& first_monitor_at(monitors@, cursor_x as int, cursor_y as int) is Some
            &&& m == MonitorAtCursor {
                x: mon.frame.x,
                y: mon.frame.y,
                width: mon.frame.width,
                height: mon.frame.height,
                visible_x: mon.visible_frame.x,
                visible_y: (ph - (mon.visible_frame.y + mon.visible_frame.height)) as i64,
                visible_width: mon.visible_frame.width,
                visible_height: mon.visible_frame.height,
                scale_percent: mon.scale_percent,
                cursor_x,
                cursor_y,
                primary_height: ph,
            }
        },
        r is None <==> first_monitor_at(monitors@, cursor_x as int, cursor_y as int) is None,
{
    match monitor_index_at(monitors, cursor_x, cursor_y) {
        None => None,
        Some(i) => {
            assert(monitors@[0].wf());
            assert(monitors@[i as int].wf());
            let primary_height = monitors[0].frame.height;
            let m = monitors[i];
            let visible_top = m.visible_frame.y + m.visible_frame.height;
            Some(MonitorAtCursor {
                x: m.frame.x,
                y: m.frame.y,
                width: m.frame.width,
                height: m.frame.height,
                visible_x: m.visible_frame.x,
                visible_y: primary_height - visible_top,
                visible_width: m.visible_frame.width,
                visible_height: m.visible_frame.height,
                scale_percent: m.scale_percent,
                cursor_x,
                cursor_y,
                primary_height,
            })
        },
    }
}

/// The insets of the usable area of the screen under the cursor; all zero
/// when no screen information is available.
pub fn get_screen_visible_area(info: &Option<ScreenInfoAtCursor>) -> (r: ScreenVisibleArea)
    requires
        info matches Some(i) ==> i.bounded(),
    ensures
        r == (match *info {
            Some(i) => insets_of(i),
            None => ScreenVisibleArea { top_inset: 0, bottom_inset: 0, left_inset: 0, right_inset: 0 },
        }),
{
    match info {
        Some(i) => ScreenVisibleArea {
            top_inset: i.visible_y - i.screen_y,
            bottom_inset: (i.screen_y + i.screen_height) - (i.visible_y + i.visible_height),
            left_inset: i.visible_x - i.screen_x,
            right_inset: (i.screen_x + i.screen_width) - (i.visible_x + i.visible_width),
        },
        None => ScreenVisibleArea { top_inset: 0, bottom_inset: 0, left_inset: 0, right_inset: 0 },
    }
}

/// A top-left-origin physical rectangle in logical space: each edge divided
/// by the scale and rounded down, the extents taken between rounded edges.
pub open spec fn top_left_logical(r: Rect, scale: int) -> (int, int, int, int) {
    let left = unscaled(r.x as int, scale);
    let top = unscaled(r.y as int, scale);
    (left, top, unscaled_up(r.x + r.width, scale) - left, unscaled_up(r.y + r.height, scale) - top)
}

fn top_left_rect(r: Rect, scale_percent: u32) -> (out: Rect)
    requires
        r.edges_within(NATIVE_LIMIT as int),
        valid_scale(scale_percent),
    ensures
        (out.x as int, out.y as int, out.width as int, out.height as int) == top_left_logical(r, scale_percent as int),
        out.bounded(logical_limit()),
{
    let left = unscale(r.x, scale_percent);
    let top = unscale(r.y, scale_percent);
    let right = unscale_up(r.x + r.width, scale_percent);
    let bottom = unscale_up(r.y + r.height, scale_percent);
    proof {
        let s = scale_percent as int;
        lemma_unscaled_monotone(r.x as int, r.x + r.width, s);
        lemma_unscaled_up_bounds(r.x + r.width, r.x + r.width, s);
        lemma_unscaled_monotone(r.y as int, r.y + r.height, s);
        lemma_unscaled_up_bounds(r.y + r.height, r.y + r.height, s);
    }
    Rect { x: left, y: top, width: right - left, height: bottom - top }
}

/// Screen information for a monitor reported in top-left-origin physical
/// coordinates, with its work area (the usable frame) and the physical
/// cursor: every edge and the cursor are divided by the scale. No flip is
/// needed, so `primary_height` carries the monitor's own physical height.
pub fn screen_info_from_top_left(
    frame: Rect,
    work_area: Rect,
    scale_percent: u32,
    cursor_x: i64,
    cursor_y: i64,
) -> (r: ScreenInfoAtCursor)
    requires
        frame.edges_within(NATIVE_LIMIT as int),
        work_area.edges_within(NATIVE_LIMIT as int),
        frame.encloses(work_area),
        valid_scale(scale_percent),
        frame.contains_spec(cursor_x as int, cursor_y as int),
    ensures
        ({
            let s = scale_percent as int;
            let f = top_left_logical(frame, s);
            let v = top_left_logical(work_area, s);
            &&& (r.screen_x as int, r.screen_y as int, r.screen_width as int, r.screen_height as int) == f
            &&& (r.visible_x as int, r.visible_y as int, r.visible_width as int, r.visible_height as int) == v
            &&& r.cursor_x == unscaled(cursor_x as int, s)
            &&& r.cursor_y == unscaled(cursor_y as int, s)
            &&& r.scale_percent == scale_percent
            &&& r.primary_height == frame.height
        }),
        r.bounded(),
        r.consistent_top_left(),
{
    let f = top_left_rect(frame, scale_percent);
    let v = top_left_rect(work_area, scale_percent);
    let cx = unscale(cursor_x, scale_percent);
    let cy = unscale(cursor_y, scale_percent);
    proof {
        let s = scale_percent as int;
        lemma_unscaled_monotone(frame.x as int, work_area.x as int, s);
        lemma_unscaled_monotone(frame.y as int, work_area.y as int, s);
        lemma_unscaled_up_bounds(work_area.x + work_area.width, frame.x + frame.width, s);
        lemma_unscaled_up_bounds(work_area.y + work_area.height, frame.y + frame.height, s);
        lemma_unscaled_monotone(frame.x as int, cursor_x as int, s);
        lemma_unscaled_up_bounds(cursor_x as int, frame.x + frame.width, s);
        lemma_unscaled_monotone(frame.y as int, cursor_y as int, s);
        lemma_unscaled_up_bounds(cursor_y as int, frame.y + frame.height, s);
    }
    ScreenInfoAtCursor {
        screen_x: f.x,
        screen_y: f.y,
        screen_width: f.width,
        screen_height: f.height,
        visible_x: v.x,
        visible_y: v.y,
        visible_width: v.width,
        visible_height: v.height,
        cursor_x: cx,
        cursor_y: cy,
        scale_percent,
        primary_height: frame.height,
    }
}

/// The primary display's logical size from its physical size and scale, or
/// the fixed default size when no primary display could be queried.
pub fn primary_screen_size(primary: Option<(i64, i64, u32)>) -> (r: (i64, i64))
    requires
        primary matches Some(p) ==> {
            &&& 0 <= p.0 <= NATIVE_LIMIT
            &&& 0 <= p.1 <= NATIVE_LIMIT
            &&& valid_scale(p.2)
        },
    ensures
        r == (match primary {
            Some(p) => (unscaled(p.0 as int, p.2 as int) as i64, unscaled(p.1 as int, p.2 as int) as i64),
            None => (DEFAULT_SCREEN_WIDTH, DEFAULT_SCREEN_HEIGHT),
        }),
{
    match primary {
        Some((w, h, scale)) => (unscale(w, scale), unscale(h, scale)),
        None => (DEFAULT_SCREEN_WIDTH, DEFAULT_SCREEN_HEIGHT),
    }
}

/// At unit scale, converting a rectangle to logical space and back gives it unchanged.
pub proof fn lemma_logical_round_trip(r: Rect, primary_native_height: int)
    ensures
        ({
            let l = logical_rect(r, primary_native_height, 100);
            native_rect(l.0, l.1, l.2, l.3, primary_native_height)
        }) == (r.x as int, r.y as int, r.width as int, r.height as int),
{
}

/// At any scale, every converted edge scaled back up lies within one logical
/// point of the native edge: below it for the near edges (left, top), which
/// round down, and above it for the far edges (right, bottom), which round up.
pub proof fn lemma_logical_tolerance(r: Rect, primary_native_height: int, scale: int)
    requires
        1 <= scale,
    ensures
        ({
            let l = logical_rect(r, primary_native_height, scale);
            &&& 0 <= 100 * r.x - scale * l.0 < scale
            &&& 0 <= scale * (l.0 + l.2) - 100 * (r.x + r.width) < scale
            &&& 0 <= 100 * (primary_native_height - r.y - r.height) - scale * l.1 < scale
            &&& 0 <= scale * (l.1 + l.3) - 100 * (primary_native_height - r.y) < scale
        }),
{
    lemma_unscaled_tolerance(r.x as int, scale);
    lemma_ceil_tolerance(r.x + r.width, scale);
    lemma_unscaled_tolerance(primary_native_height - r.y - r.height, scale);
    lemma_ceil_tolerance(primary_native_height - r.y, scale);
}

/// Writing a window back: a native top edge `top` converted to logical space
/// and back with `native_top` lands at or above it by less than
/// `scale / 100 + 1` native units; at unit scale exactly on it.
pub proof fn lemma_write_back_tolerance(top: int, primary_native_height: int, scale: int)
    requires
        1 <= scale,
    ensures
        ({
            let n = native_top(unscaled(primary_native_height - top, scale), primary_native_height, scale);
            &&& top <= n
            &&& 100 * (n - top) < scale + 100
            &&& scale == 100 ==> n == top
        }),
{
    let d = primary_native_height - top;
    let y = unscaled(d, scale);
    lemma_unscaled_tolerance(d, scale);
    let m = y * scale;
    assert(m == scale * y) by (nonlinear_arith)
        requires m == y * scale;
    lemma_fundamental_div_mod(m, 100);
    lemma_mod_bound(m, 100);
    if scale == 100 {
        assert(y == d) by (nonlinear_arith)
            requires 0 <= 100 * d - scale * y < scale, scale == 100;
        assert(m == d * 100) by (nonlinear_arith)
            requires m == y * scale, scale == 100, y == d;
    }
}

/// With half-open containment and frames that do not overlap, the monitor
/// that holds a point is the one found, wherever it stands in the list.
pub proof fn lemma_disjoint_monitors_resolve_uniquely(monitors: Seq<MonitorInfo>, px: int, py: int, j: int)
    requires
        0 <= j < monitors.len(),
        monitors[j].frame.contains_spec(px, py),
        forall|a: int, b: int|
            0 <= a < monitors.len() && 0 <= b < monitors.len() && a != b
                ==> frames_disjoint(#[trigger] monitors[a].frame, #[trigger] monitors[b].frame),
    ensures
        first_monitor_at(monitors, px, py) == Some(j),
{
    assert forall|k: int| 0 <= k < j implies !(#[trigger] monitors[k].frame.contains_spec(px, py)) by {
        assert(frames_disjoint(monitors[j].frame, monitors[k].frame));
    }
    lemma_first_monitor_is(monitors, px, py, j);
}

/// Two frames that do not overlap; frames that only share an edge qualify.
pub open spec fn frames_disjoint(a: Rect, b: Rect) -> bool {
    ||| a.x + a.width <= b.x
    ||| b.x + b.width <= a.x
    ||| a.y + a.height <= b.y
    ||| b.y + b.height <= a.y
}

/// With half-open containment, monitors whose frames do not overlap never
/// both hold a point, so the monitor under the cursor is never counted twice.
pub proof fn lemma_disjoint_frames_hold_point_once(monitors: Seq<MonitorInfo>, px: int, py: int, i: int, j: int)
    requires
        0 <= i < monitors.len(),
        0 <= j < monitors.len(),
        i != j,
        frames_disjoint(monitors[i].frame, monitors[j].frame),
        monitors[i].frame.contains_spec(px, py),
    ensures
        !monitors[j].frame.contains_spec(px, py),
{
}

/// A cursor on the shared vertical edge of two side-by-side monitors belongs to
/// the right-hand one alone, whichever order the monitors are listed in.
pub proof fn lemma_shared_edge_resolves_once(left: MonitorInfo, right: MonitorInfo, px: int, py: int)
    requires
        left.frame.x + left.frame.width == right.frame.x,
        px == right.frame.x,
        right.frame.width > 0,
        right.frame.y <= py < right.frame.y + right.frame.height,
    ensures
        right.frame.contains_spec(px, py),
        !left.frame.contains_spec(px, py),
        first_monitor_at(seq![left, right], px, py) == Some(1int),
        first_monitor_at(seq![right, left], px, py) == Some(0int),
{
    lemma_first_monitor_is(seq![left, right], px, py, 1);
    lemma_first_monitor_is(seq![right, left], px, py, 0);
}

/// A cursor on the shared horizontal edge of two stacked monitors belongs to
/// the upper one alone (native coordinates grow upwards), whichever order the
/// monitors are listed in.
pub proof fn lemma_shared_edge_resolves_once_stacked(lower: MonitorInfo, upper: MonitorInfo, px: int, py: int)
    requires
        lower.frame.y + lower.frame.height == upper.frame.y,
        py == upper.frame.y,
        upper.frame.height > 0,
        upper.frame.x <= px < upper.frame.x + upper.frame.width,
    ensures
        upper.frame.contains_spec(px, py),
        !lower.frame.contains_spec(px, py),
        first_monitor_at(seq![lower, upper], px, py) == Some(1int),
        first_monitor_at(seq![upper, lower], px, py) == Some(0int),
{
    lemma_first_monitor_is(seq![lower, upper], px, py, 1);
    lemma_first_monitor_is(seq![upper, lower], px, py, 0);
}

/// At unit scale the screen information carries the monitor's frame as it
/// is, with only the vertical origin moved to the top of the primary display;
/// at any scale it carries the frame's edges divided by the scale.
pub proof fn lemma_screen_info_frame(m: MonitorInfo, primary_native_height: int, px: int, py: int)
    requires
        screen_info_fits(m, primary_native_height, px, py),
    ensures
        ({
            let info = screen_info_of(m, primary_native_height, px, py);
            let s = m.scale_percent as int;
            &&& info.screen_x == unscaled(m.frame.x as int, s)
            &&& info.screen_x + info.screen_width == unscaled_up(m.frame.x + m.frame.width, s)
            &&& info.screen_y == unscaled(primary_native_height - m.frame.y - m.frame.height, s)
            &&& info.screen_y + info.screen_height == unscaled_up(primary_native_height - m.frame.y, s)
            &&& m.scale_percent == 100 ==> {
                &&& info.screen_x == m.frame.x
                &&& info.screen_width == m.frame.width
                &&& info.screen_y == primary_native_height - m.frame.y - m.frame.height
                &&& info.screen_height == m.frame.height
            }
        }),
{
}

} // verus!
