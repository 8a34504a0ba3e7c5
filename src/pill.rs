use vstd::prelude::*;

use crate::geometry::{within, Rect, PLACE_LIMIT};
use crate::placement::{
    place, placement, OverlayAnchor, EXPANDED_PILL_HOVERABLE_HEIGHT, EXPANDED_PILL_HOVERABLE_WIDTH,
    MIN_PILL_HEIGHT, MIN_PILL_HOVER_PADDING, MIN_PILL_WIDTH,
};

verus! {

/// Hover and expansion of the pill, as last observed.
#[derive(Clone, Copy, Debug, PartialEq, Eq, Structural)]
pub struct PillState {
    pub hovered: bool,
    pub expanded: bool,
}

/// The payload broadcast when the pill's state changes.
#[derive(Clone, Copy, Debug, PartialEq, Eq, Structural)]
pub struct PillExpandedPayload {
    pub expanded: bool,
    pub hovered: bool,
}

/// One evaluation of the state machine: the next state and what changed.
#[derive(Clone, Copy, Debug, PartialEq, Eq, Structural)]
pub struct PillTransition {
    pub next: PillState,
    pub hovered_changed: bool,
    pub expanded_changed: bool,
}

/// Closed containment of a point in the box of the given size at `(ax, ay)`.
pub open spec fn in_box(cx: int, cy: int, ax: int, ay: int, w: int, h: int) -> bool {
    &&& ax <= cx <= ax + w
    &&& ay <= cy <= ay + h
}

/// Whether the cursor lies in the hover box whose top-left corner is the anchor point.
pub fn is_within(cursor_x: i64, cursor_y: i64, anchor_x: i64, anchor_y: i64, hover_w: i64, hover_h: i64) -> (r: bool)
    requires
        within(anchor_x as int, 4 * PLACE_LIMIT),
        within(anchor_y as int, 4 * PLACE_LIMIT),
        0 <= hover_w <= PLACE_LIMIT,
        0 <= hover_h <= PLACE_LIMIT,
    ensures
        r == in_box(cursor_x as int, cursor_y as int, anchor_x as int, anchor_y as int, hover_w as int, hover_h as int),
{
    cursor_x >= anchor_x && cursor_x <= anchor_x + hover_w && cursor_y >= anchor_y && cursor_y <= anchor_y + hover_h
}

/// The hover box's size: the collapsed pill with padding on every side, or the
/// expanded pill's hoverable area.
pub open spec fn hover_size(expanded: bool) -> (int, int) {
    if expanded {
        (EXPANDED_PILL_HOVERABLE_WIDTH as int, EXPANDED_PILL_HOVERABLE_HEIGHT as int)
    } else {
        (
            MIN_PILL_WIDTH + MIN_PILL_HOVER_PADDING * 2,
            MIN_PILL_HEIGHT + MIN_PILL_HOVER_PADDING * 2,
        )
    }
}

pub fn hover_box_size(expanded: bool) -> (r: (i64, i64))
    ensures
        (r.0 as int, r.1 as int) == hover_size(expanded),
{
    if expanded {
        (EXPANDED_PILL_HOVERABLE_WIDTH, EXPANDED_PILL_HOVERABLE_HEIGHT)
    } else {
        (MIN_PILL_WIDTH + MIN_PILL_HOVER_PADDING * 2, MIN_PILL_HEIGHT + MIN_PILL_HOVER_PADDING * 2)
    }
}

/// The hover box: bottom-centred on the full frame, as the pill is.
pub open spec fn hover_box(frame: Rect, bottom_offset: int, expanded: bool) -> (int, int, int, int) {
    let (w, h) = hover_size(expanded);
    let (x, y) = placement(OverlayAnchor::BottomCenter, w, h, frame, bottom_offset);
    (x, y, w, h)
}

/// Whether the cursor hovers the pill in the given expansion.
pub open spec fn pill_hit(frame: Rect, bottom_offset: int, expanded: bool, cx: int, cy: int) -> bool {
    let b = hover_box(frame, bottom_offset, expanded);
    in_box(cx, cy, b.0, b.1, b.2, b.3)
}

/// Hit-tests the cursor against the pill's hover box for its current expansion.
pub fn pill_hovered(frame: Rect, bottom_offset: i64, expanded: bool, cursor_x: i64, cursor_y: i64) -> (r: bool)
    requires
        frame.bounded(PLACE_LIMIT as int),
        within(bottom_offset as int, PLACE_LIMIT as int),
    ensures
        r == pill_hit(frame, bottom_offset as int, expanded, cursor_x as int, cursor_y as int),
{
    let (w, h) = hover_box_size(expanded);
    let (x, y) = place(OverlayAnchor::BottomCenter, w, h, frame, bottom_offset);
    is_within(cursor_x, cursor_y, x, y, w, h)
}

/// The state after one tick: hovering needs the hover feature on; the pill is
/// expanded while hovered or while the application is active.
pub open spec fn next_state(hit: bool, hover_enabled: bool, externally_active: bool) -> PillState {
    let hovered = hover_enabled && hit;
    PillState { hovered, expanded: hovered || externally_active }
}

pub open spec fn transition_of(current: PillState, hit: bool, hover_enabled: bool, externally_active: bool) -> PillTransition {
    let next = next_state(hit, hover_enabled, externally_active);
    PillTransition {
        next,
        hovered_changed: next.hovered != current.hovered,
        expanded_changed: next.expanded != current.expanded,
    }
}

impl PillState {
    /// Both flags clear: the state before the first tick.
    pub fn new() -> (r: PillState)
        ensures
            !r.hovered,
            !r.expanded,
    {
        PillState { hovered: false, expanded: false }
    }

    /// Evaluates the state machine for one tick.
    pub fn step(&self, hit: bool, hover_enabled: bool, externally_active: bool) -> (r: PillTransition)
        ensures
            r == transition_of(*self, hit, hover_enabled, externally_active),
            r.next.expanded == (r.next.hovered || externally_active),
            r.next.hovered == (hover_enabled && hit),
    {
        let hovered = hover_enabled && hit;
        let expanded = hovered || externally_active;
        PillTransition {
            next: PillState { hovered, expanded },
            hovered_changed: hovered != self.hovered,
            expanded_changed: expanded != self.expanded,
        }
    }
}

impl PillTransition {
    /// A transition is observable when either flag changed.
    pub open spec fn observable_spec(self) -> bool {
        self.hovered_changed || self.expanded_changed
    }

    pub fn is_observable(&self) -> (r: bool)
        ensures
            r == self.observable_spec(),
    {
        self.hovered_changed || self.expanded_changed
    }
}

/// An application that is active keeps the pill expanded whether or not it is
/// hovered.
pub proof fn lemma_active_overrides_hover(current: PillState, hit: bool, hover_enabled: bool)
    ensures
        transition_of(current, hit, hover_enabled, true).next.expanded,
        !hit ==> !transition_of(current, hit, hover_enabled, true).next.hovered,
{
}

/// The expanded hover box holds the collapsed one, so a point that hovers the
/// collapsed pill still hovers it once expanded; and once expanded, any point
/// of the expanded box hovers it, inside the collapsed box or not.
pub proof fn lemma_expanded_box_supersedes(frame: Rect, bottom_offset: int, cx: int, cy: int)
    ensures
        pill_hit(frame, bottom_offset, false, cx, cy) ==> pill_hit(frame, bottom_offset, true, cx, cy),
        ({
            let b = hover_box(frame, bottom_offset, true);
            in_box(cx, cy, b.0, b.1, b.2, b.3) ==> pill_hit(frame, bottom_offset, true, cx, cy)
        }),
{
    let d = frame.width as int;
    assert((d - 56) / 2 == (d - 136) / 2 + 40);
}

} // verus!
