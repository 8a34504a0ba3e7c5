use vstd::prelude::*;

use crate::geometry::{within, Rect, PLACE_LIMIT};

verus! {

/// Where an overlay sits relative to its reference rectangle.
#[derive(Clone, Copy, Debug, PartialEq, Eq, Structural)]
pub enum OverlayAnchor {
    BottomCenter,
    TopRight,
    TopLeft,
}

/// The overlays that follow the cursor.
#[derive(Clone, Copy, Debug, PartialEq, Eq, Structural)]
pub enum OverlayKind {
    Pill,
    Toast,
    Agent,
}

/// Fixed configuration of one overlay.
#[derive(Clone, Copy, Debug, PartialEq, Eq, Structural)]
pub struct OverlayDescriptor {
    pub kind: OverlayKind,
    pub width: i64,
    pub height: i64,
    pub anchor: OverlayAnchor,
    pub margin: i64,
}

pub const PILL_OVERLAY_WIDTH: i64 = 256;
pub const PILL_OVERLAY_HEIGHT: i64 = 96;
pub const MIN_PILL_WIDTH: i64 = 48;
pub const MIN_PILL_HEIGHT: i64 = 6;
pub const MIN_PILL_HOVER_PADDING: i64 = 4;
pub const EXPANDED_PILL_WIDTH: i64 = 120;
pub const EXPANDED_PILL_HEIGHT: i64 = 32;
pub const EXPANDED_PILL_HOVERABLE_WIDTH: i64 = EXPANDED_PILL_WIDTH + 16;
pub const EXPANDED_PILL_HOVERABLE_HEIGHT: i64 = EXPANDED_PILL_HEIGHT + 16;

pub const TOAST_OVERLAY_WIDTH: i64 = 380;
pub const TOAST_OVERLAY_HEIGHT: i64 = 164;
pub const TOAST_OVERLAY_TOP_OFFSET: i64 = 0;
pub const TOAST_OVERLAY_RIGHT_OFFSET: i64 = 0;

pub const AGENT_OVERLAY_WIDTH: i64 = 332;
pub const AGENT_OVERLAY_HEIGHT: i64 = 632;
pub const AGENT_OVERLAY_LEFT_OFFSET: i64 = 16;
pub const AGENT_OVERLAY_TOP_OFFSET: i64 = 16;

/// Gap between the pill and the bottom edge of the full screen frame.
pub const BOTTOM_PILL_OFFSET: i64 = 8;

/// Fallback display size when no monitor can be queried.
pub const DEFAULT_SCREEN_WIDTH: i64 = 1920;
pub const DEFAULT_SCREEN_HEIGHT: i64 = 1080;

/// Milliseconds between two polls of the cursor.
pub const CURSOR_POLL_INTERVAL_MS: u64 = 60;

/// Top-left corner of an overlay of the given size anchored in `reference`.
pub open spec fn placement(anchor: OverlayAnchor, w: int, h: int, reference: Rect, margin: int) -> (int, int) {
    match anchor {
        OverlayAnchor::BottomCenter => (
            reference.x + (reference.width - w) / 2,
            reference.y + reference.height - h - margin,
        ),
        OverlayAnchor::TopRight => (reference.x + reference.width - w - margin, reference.y + margin),
        OverlayAnchor::TopLeft => (reference.x + margin, reference.y + margin),
    }
}

/// Arguments small enough that placement cannot overflow.
pub open spec fn place_args_ok(w: int, h: int, reference: Rect, margin: int) -> bool {
    &&& 0 <= w <= PLACE_LIMIT
    &&& 0 <= h <= PLACE_LIMIT
    &&& within(margin, PLACE_LIMIT as int)
    &&& reference.bounded(PLACE_LIMIT as int)
}

/// Half of `d`, rounded down.
fn half_floor(d: i64) -> (r: i64)
    requires
        within(d as int, 2 * PLACE_LIMIT),
    ensures
        r == d as int / 2,
{
    if d >= 0 {
        d / 2
    } else {
        -((-d + 1) / 2)
    }
}

/// Computes the top-left corner of an overlay anchored in `reference`.
/// A bottom-centred overlay whose width differs in parity from the reference
/// is shifted half a point to the left.
pub fn place(anchor: OverlayAnchor, w: i64, h: i64, reference: Rect, margin: i64) -> (r: (i64, i64))
    requires
        place_args_ok(w as int, h as int, reference, margin as int),
    ensures
        (r.0 as int, r.1 as int) == placement(anchor, w as int, h as int, reference, margin as int),
        within(r.0 as int, 4 * PLACE_LIMIT),
        within(r.1 as int, 4 * PLACE_LIMIT),
{
    match anchor {
        OverlayAnchor::BottomCenter => (
            reference.x + half_floor(reference.width - w),
            reference.y + reference.height - h - margin,
        ),
        OverlayAnchor::TopRight => (reference.x + reference.width - w - margin, reference.y + margin),
        OverlayAnchor::TopLeft => (reference.x + margin, reference.y + margin),
    }
}

pub open spec fn descriptor_of(kind: OverlayKind) -> OverlayDescriptor {
    match kind {
        OverlayKind::Pill => OverlayDescriptor {
            kind,
            width: PILL_OVERLAY_WIDTH,
            height: PILL_OVERLAY_HEIGHT,
            anchor: OverlayAnchor::BottomCenter,
            margin: BOTTOM_PILL_OFFSET,
        },
        OverlayKind::Toast => OverlayDescriptor {
            kind,
            width: TOAST_OVERLAY_WIDTH,
            height: TOAST_OVERLAY_HEIGHT,
            anchor: OverlayAnchor::TopRight,
            margin: TOAST_OVERLAY_RIGHT_OFFSET,
        },
        OverlayKind::Agent => OverlayDescriptor {
            kind,
            width: AGENT_OVERLAY_WIDTH,
            height: AGENT_OVERLAY_HEIGHT,
            anchor: OverlayAnchor::TopLeft,
            margin: AGENT_OVERLAY_LEFT_OFFSET,
        },
    }
}

/// The size, anchor and margin of an overlay.
pub fn overlay_descriptor(kind: OverlayKind) -> (r: OverlayDescriptor)
    ensures
        r == descriptor_of(kind),
{
    match kind {
        OverlayKind::Pill => OverlayDescriptor {
            kind,
            width: PILL_OVERLAY_WIDTH,
            height: PILL_OVERLAY_HEIGHT,
            anchor: OverlayAnchor::BottomCenter,
            margin: BOTTOM_PILL_OFFSET,
        },
        OverlayKind::Toast => OverlayDescriptor {
            kind,
            width: TOAST_OVERLAY_WIDTH,
            height: TOAST_OVERLAY_HEIGHT,
            anchor: OverlayAnchor::TopRight,
            margin: TOAST_OVERLAY_RIGHT_OFFSET,
        },
        OverlayKind::Agent => OverlayDescriptor {
            kind,
            width: AGENT_OVERLAY_WIDTH,
            height: AGENT_OVERLAY_HEIGHT,
            anchor: OverlayAnchor::TopLeft,
            margin: AGENT_OVERLAY_LEFT_OFFSET,
        },
    }
}

/// The gap kept between the pill and the bottom of the screen.
pub fn get_bottom_pill_offset() -> (r: i64)
    ensures
        r == BOTTOM_PILL_OFFSET,
{
    BOTTOM_PILL_OFFSET
}

/// Where a new overlay window first appears on a primary display of the
/// given logical size: centred horizontally, three quarters of the way down.
pub fn initial_window_position(screen_width: i64, screen_height: i64, width: i64) -> (r: (i64, i64))
    requires
        0 <= screen_width <= PLACE_LIMIT,
        0 <= screen_height <= PLACE_LIMIT,
        0 <= width <= PLACE_LIMIT,
    ensures
        r.0 as int == (screen_width - width) as int / 2,
        r.1 as int == (screen_height as int * 3) / 4,
{
    (half_floor(screen_width - width), screen_height / 4 * 3 + (screen_height % 4) * 3 / 4)
}

} // verus!
