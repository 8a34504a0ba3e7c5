use vstd::prelude::*;

use crate::geometry::PLACE_LIMIT;
use crate::pill::{hover_box, in_box, lemma_expanded_box_supersedes, pill_hit, pill_hovered, transition_of, PillExpandedPayload, PillState, PillTransition};
use crate::placement::{
    place, placement, OverlayAnchor, OverlayKind, AGENT_OVERLAY_HEIGHT, AGENT_OVERLAY_LEFT_OFFSET,
    AGENT_OVERLAY_WIDTH, BOTTOM_PILL_OFFSET, PILL_OVERLAY_HEIGHT, PILL_OVERLAY_WIDTH,
    TOAST_OVERLAY_HEIGHT, TOAST_OVERLAY_RIGHT_OFFSET, TOAST_OVERLAY_WIDTH,
};
use crate::screen::{logical_limit, ScreenInfoAtCursor};

verus! {

/// What the window system reported for one tick.
#[derive(Clone, Copy, Debug, PartialEq, Eq, Structural)]
pub struct TickInput {
    /// The screen under the cursor, if one holds it.
    pub screen: Option<ScreenInfoAtCursor>,
    pub pill_exists: bool,
    pub toast_exists: bool,
    pub agent_exists: bool,
    /// Whether hovering the pill may expand it.
    pub hover_enabled: bool,
    /// Whether the application is active rather than idle.
    pub externally_active: bool,
}

/// A window move to a logical top-left position.
#[derive(Clone, Copy, Debug, PartialEq, Eq, Structural)]
pub struct WindowMove {
    pub overlay: OverlayKind,
    pub x: i64,
    pub y: i64,
}

/// The side effects that one tick asks for, in order: moves, then the
/// click-through toggle, then the notification.
#[derive(Clone, Debug)]
pub struct TickPlan {
    pub moves: Vec<WindowMove>,
    /// The click-through flag to set on the pill, when its expansion changed.
    pub click_through: Option<bool>,
    /// The notification to broadcast, when the pill's state changed.
    pub notify: Option<PillExpandedPayload>,
}

/// Drives the overlays from one tick to the next; owns the pill's state.
#[derive(Clone, Copy, Debug)]
pub struct CursorFollower {
    pub state: PillState,
}

impl TickInput {
    pub open spec fn wf(self) -> bool {
        self.screen matches Some(info) ==> info.bounded()
    }
}

pub open spec fn move_to(overlay: OverlayKind, p: (int, int)) -> WindowMove {
    WindowMove { overlay, x: p.0 as i64, y: p.1 as i64 }
}

/// Placement of each overlay that exists: the pill on the full frame, the toast
/// and the agent panel on the usable frame.
pub open spec fn planned_moves(input: TickInput) -> Seq<WindowMove> {
    match input.screen {
        None => Seq::empty(),
        Some(info) => {
            let pill = if input.pill_exists {
                seq![move_to(OverlayKind::Pill, placement(OverlayAnchor::BottomCenter, PILL_OVERLAY_WIDTH as int,
                    PILL_OVERLAY_HEIGHT as int, info.frame_spec(), BOTTOM_PILL_OFFSET as int))]
            } else {
                Seq::empty()
            };
            let toast = if input.toast_exists {
                seq![move_to(OverlayKind::Toast, placement(OverlayAnchor::TopRight, TOAST_OVERLAY_WIDTH as int,
                    TOAST_OVERLAY_HEIGHT as int, info.visible_spec(), TOAST_OVERLAY_RIGHT_OFFSET as int))]
            } else {
                Seq::empty()
            };
            let agent = if input.agent_exists {
                seq![move_to(OverlayKind::Agent, placement(OverlayAnchor::TopLeft, AGENT_OVERLAY_WIDTH as int,
                    AGENT_OVERLAY_HEIGHT as int, info.visible_spec(), AGENT_OVERLAY_LEFT_OFFSET as int))]
            } else {
                Seq::empty()
            };
            pill + toast + agent
        },
    }
}

/// Whether this tick runs the state machine: a screen was found and the pill exists.
pub open spec fn tracks_pill(input: TickInput) -> bool {
    input.screen is Some && input.pill_exists
}

/// The state machine's transition for this tick, when it runs.
pub open spec fn tick_transition(state: PillState, input: TickInput) -> PillTransition {
    let info = input.screen->Some_0;
    let hit = pill_hit(info.frame_spec(), BOTTOM_PILL_OFFSET as int, state.expanded,
        info.cursor_x as int, info.cursor_y as int);
    transition_of(state, hit, input.hover_enabled, input.externally_active)
}

pub open spec fn next_tick_state(state: PillState, input: TickInput) -> PillState {
    if tracks_pill(input) { tick_transition(state, input).next } else { state }
}

pub open spec fn planned_click_through(state: PillState, input: TickInput) -> Option<bool> {
    if tracks_pill(input) && tick_transition(state, input).expanded_changed {
        Some(!tick_transition(state, input).next.expanded)
    } else {
        None
    }
}

pub open spec fn planned_notify(state: PillState, input: TickInput) -> Option<PillExpandedPayload> {
    if tracks_pill(input) && tick_transition(state, input).observable_spec() {
        let next = tick_transition(state, input).next;
        Some(PillExpandedPayload { expanded: next.expanded, hovered: next.hovered })
    } else {
        None
    }
}

impl CursorFollower {
    /// A follower whose pill is neither hovered nor expanded.
    pub fn new() -> (r: CursorFollower)
        ensures
            r.state == (PillState { hovered: false, expanded: false }),
    {
        CursorFollower { state: PillState { hovered: false, expanded: false } }
    }

    /// Runs one tick: places every overlay that exists, evaluates the pill's
    /// state machine, and asks for the click-through toggle and the
    /// notification only when the state actually changed. Without a screen
    /// under the cursor nothing is planned and the state stays.
    pub fn tick(&mut self, input: &TickInput) -> (plan: TickPlan)
        requires
            input.wf(),
        ensures
            final(self).state == next_tick_state(old(self).state, *input),
            plan.moves@ == planned_moves(*input),
            plan.click_through == planned_click_through(old(self).state, *input),
            plan.notify == planned_notify(old(self).state, *input),
    {
        let mut moves: Vec<WindowMove> = Vec::new();
        let info = match input.screen {
            Some(info) => info,
            None => {
                return TickPlan { moves, click_through: None, notify: None };
            },
        };
        proof {
            assert(logical_limit() <= PLACE_LIMIT);
        }
        let frame = info.frame();
        let visible = info.visible();
        if input.pill_exists {
            let (x, y) = place(OverlayAnchor::BottomCenter, PILL_OVERLAY_WIDTH, PILL_OVERLAY_HEIGHT, frame, BOTTOM_PILL_OFFSET);
            moves.push(WindowMove { overlay: OverlayKind::Pill, x, y });
        }
        if input.toast_exists {
            let (x, y) = place(OverlayAnchor::TopRight, TOAST_OVERLAY_WIDTH, TOAST_OVERLAY_HEIGHT, visible, TOAST_OVERLAY_RIGHT_OFFSET);
            moves.push(WindowMove { overlay: OverlayKind::Toast, x, y });
        }
        if input.agent_exists {
            let (x, y) = place(OverlayAnchor::TopLeft, AGENT_OVERLAY_WIDTH, AGENT_OVERLAY_HEIGHT, visible, AGENT_OVERLAY_LEFT_OFFSET);
            moves.push(WindowMove { overlay: OverlayKind::Agent, x, y });
        }
        proof {
            assert(moves@ =~= planned_moves(*input));
        }
        if !input.pill_exists {
            return TickPlan { moves, click_through: None, notify: None };
        }
        let hit = pill_hovered(frame, BOTTOM_PILL_OFFSET, self.state.expanded, info.cursor_x, info.cursor_y);
        let t = self.state.step(hit, input.hover_enabled, input.externally_active);
        self.state = t.next;
        let click_through = if t.expanded_changed {
            Some(!t.next.expanded)
        } else {
            None
        };
        let notify = if t.is_observable() {
            Some(PillExpandedPayload { expanded: t.next.expanded, hovered: t.next.hovered })
        } else {
            None
        };
        TickPlan { moves, click_through, notify }
    }
}

/// The one case where a second identical tick still changes the state: the
/// application became active and expanded the pill this tick, and the cursor
/// sits in the expanded hover box but outside the collapsed one, so the next
/// tick's larger box picks up the hover.
pub open spec fn tick_rehovers(state: PillState, input: TickInput) -> bool {
    let info = input.screen->Some_0;
    &&& tracks_pill(input)
    &&& input.hover_enabled
    &&& input.externally_active
    &&& !state.expanded
    &&& pill_hit(info.frame_spec(), BOTTOM_PILL_OFFSET as int, true, info.cursor_x as int, info.cursor_y as int)
    &&& !pill_hit(info.frame_spec(), BOTTOM_PILL_OFFSET as int, false, info.cursor_x as int, info.cursor_y as int)
}

/// Two consecutive ticks on the same cursor position, screen and flags: the
/// placements depend on the input alone, and the second tick keeps the state,
/// toggles nothing and notifies nothing.
pub proof fn lemma_tick_idempotent(state: PillState, input: TickInput)
    requires
        !tick_rehovers(state, input),
    ensures
        next_tick_state(next_tick_state(state, input), input) == next_tick_state(state, input),
        planned_click_through(next_tick_state(state, input), input) is None,
        planned_notify(next_tick_state(state, input), input) is None,
{
    if tracks_pill(input) {
        let info = input.screen->Some_0;
        lemma_expanded_box_supersedes(info.frame_spec(), BOTTOM_PILL_OFFSET as int, info.cursor_x as int,
            info.cursor_y as int);
    }
}

/// Entering the pill's hover box notifies once with `hovered: true`; a second
/// tick with the cursor further inside the now expanded box notifies nothing.
pub proof fn lemma_hover_entry_notifies_once(state: PillState, first: TickInput, second: TickInput)
    requires
        tracks_pill(first),
        tracks_pill(second),
        first.hover_enabled,
        second.hover_enabled,
        !state.hovered,
        second.screen->Some_0.frame_spec() == first.screen->Some_0.frame_spec(),
        pill_hit(first.screen->Some_0.frame_spec(), BOTTOM_PILL_OFFSET as int, state.expanded,
            first.screen->Some_0.cursor_x as int, first.screen->Some_0.cursor_y as int),
        pill_hit(second.screen->Some_0.frame_spec(), BOTTOM_PILL_OFFSET as int, true,
            second.screen->Some_0.cursor_x as int, second.screen->Some_0.cursor_y as int),
    ensures
        planned_notify(state, first) == Some(PillExpandedPayload { expanded: true, hovered: true }),
        planned_notify(next_tick_state(state, first), second) is None,
{
}

/// Once the pill is expanded, the tick hit-tests against the expanded hover
/// box: a cursor anywhere in it keeps the pill hovered, including where the
/// collapsed box would have missed it.
pub proof fn lemma_expanded_box_keeps_hover(state: PillState, input: TickInput)
    requires
        state.expanded,
        tracks_pill(input),
        input.hover_enabled,
        ({
            let info = input.screen->Some_0;
            let b = hover_box(info.frame_spec(), BOTTOM_PILL_OFFSET as int, true);
            in_box(info.cursor_x as int, info.cursor_y as int, b.0, b.1, b.2, b.3)
        }),
    ensures
        next_tick_state(state, input).hovered,
        next_tick_state(state, input).expanded,
{
}

/// Without a screen under the cursor a tick moves nothing, toggles nothing,
/// notifies nothing and keeps the state.
pub proof fn lemma_no_screen_is_noop(state: PillState, input: TickInput)
    requires
        input.screen is None,
    ensures
        planned_moves(input).len() == 0,
        planned_click_through(state, input) is None,
        planned_notify(state, input) is None,
        next_tick_state(state, input) == state,
{
}

} // verus!
