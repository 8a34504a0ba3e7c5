use overlay_follower::webview::{overlay_page_path, overlay_query};
use overlay_follower::follower::{CursorFollower, TickInput, WindowMove};
use overlay_follower::geometry::{unscale, Rect};
use overlay_follower::pill::{hover_box_size, is_within, pill_hovered, PillExpandedPayload, PillState};
use overlay_follower::placement::{
    get_bottom_pill_offset, initial_window_position, overlay_descriptor, place, OverlayAnchor, OverlayKind,
};
use overlay_follower::screen::{
    get_monitor_at_cursor, get_screen_info_at_cursor, get_screen_visible_area, monitor_index_at,
    native_top_left_y, primary_screen_size, to_logical_point, to_logical_rect, MonitorInfo, ScreenInfoAtCursor,
    ScreenVisibleArea,
};

fn rect(x: i64, y: i64, width: i64, height: i64) -> Rect {
    Rect { x, y, width, height }
}

fn monitor(frame: Rect, visible_frame: Rect) -> MonitorInfo {
    MonitorInfo { frame, visible_frame, scale_percent: 100 }
}

/// A 1920x1080 screen whose usable area loses 40 points at the top.
fn screen_with_cursor(cursor_x: i64, cursor_y: i64) -> ScreenInfoAtCursor {
    ScreenInfoAtCursor {
        screen_x: 0,
        screen_y: 0,
        screen_width: 1920,
        screen_height: 1080,
        visible_x: 0,
        visible_y: 40,
        visible_width: 1920,
        visible_height: 1040,
        cursor_x,
        cursor_y,
        scale_percent: 100,
        primary_height: 1080,
    }
}

fn input(screen: Option<ScreenInfoAtCursor>, active: bool) -> TickInput {
    TickInput {
        screen,
        pill_exists: true,
        toast_exists: true,
        agent_exists: true,
        hover_enabled: true,
        externally_active: active,
    }
}

#[test]
fn toast_top_right_placement() {
    assert_eq!(place(OverlayAnchor::TopRight, 380, 164, rect(0, 0, 1920, 1040), 0), (1540, 0));
}

#[test]
fn pill_bottom_center_placement() {
    assert_eq!(place(OverlayAnchor::BottomCenter, 256, 96, rect(0, 0, 1920, 1080), 8), (832, 976));
}

#[test]
fn agent_top_left_placement() {
    assert_eq!(place(OverlayAnchor::TopLeft, 332, 632, rect(100, 40, 1920, 1040), 16), (116, 56));
}

#[test]
fn bottom_center_rounds_down_on_odd_difference() {
    assert_eq!(place(OverlayAnchor::BottomCenter, 10, 10, rect(0, 0, 15, 100), 0), (2, 90));
    assert_eq!(place(OverlayAnchor::BottomCenter, 20, 10, rect(0, 0, 15, 100), 0), (-3, 90));
}

#[test]
fn descriptors_and_offsets() {
    let pill = overlay_descriptor(OverlayKind::Pill);
    assert_eq!((pill.width, pill.height, pill.anchor, pill.margin), (256, 96, OverlayAnchor::BottomCenter, 8));
    let toast = overlay_descriptor(OverlayKind::Toast);
    assert_eq!((toast.width, toast.height, toast.anchor, toast.margin), (380, 164, OverlayAnchor::TopRight, 0));
    let agent = overlay_descriptor(OverlayKind::Agent);
    assert_eq!((agent.width, agent.height, agent.anchor, agent.margin), (332, 632, OverlayAnchor::TopLeft, 16));
    assert_eq!(get_bottom_pill_offset(), 8);
}

#[test]
fn initial_position_is_centered_three_quarters_down() {
    assert_eq!(initial_window_position(1920, 1080, 256), (832, 810));
    assert_eq!(initial_window_position(1001, 1001, 0), (500, 750));
}

#[test]
fn primary_size_scaled_or_default() {
    assert_eq!(primary_screen_size(Some((3840, 2160, 200))), (1920, 1080));
    assert_eq!(primary_screen_size(None), (1920, 1080));
}

#[test]
fn unscale_rounds_down() {
    assert_eq!(unscale(300, 200), 150);
    assert_eq!(unscale(301, 200), 150);
    assert_eq!(unscale(-301, 200), -151);
    assert_eq!(unscale(1000, 125), 800);
}

#[test]
fn logical_conversion_flips_origin() {
    // primary 1080 high; a rect 100 high whose native bottom is at 0
    assert_eq!(to_logical_rect(rect(10, 0, 200, 100), 1080, 100), rect(10, 980, 200, 100));
    assert_eq!(to_logical_rect(rect(0, 0, 3840, 2160), 2160, 200), rect(0, 0, 1920, 1080));
    assert_eq!(to_logical_point(5, 1000, 1080, 100), (5, 80));
    assert_eq!(native_top_left_y(80, 1080, 100), 1000);
    assert_eq!(native_top_left_y(80, 2160, 200), 2000);
    assert_eq!(native_top_left_y(-3, 100, 150), 105);
}

#[test]
fn shared_edge_resolves_to_one_monitor() {
    let left = monitor(rect(0, 0, 1920, 1080), rect(0, 0, 1920, 1040));
    let right = monitor(rect(1920, 0, 1920, 1080), rect(1920, 0, 1920, 1080));
    let monitors = vec![left, right];
    assert_eq!(monitor_index_at(&monitors, 1920, 500), Some(1));
    assert_eq!(monitor_index_at(&monitors, 1919, 500), Some(0));
    assert_eq!(monitor_index_at(&vec![right, left], 1920, 500), Some(0));
    assert_eq!(monitor_index_at(&monitors, 3840, 500), None);
    assert_eq!(monitor_index_at(&monitors, 100, 1080), None);
}

#[test]
fn stacked_edge_resolves_to_one_monitor() {
    let lower = monitor(rect(0, 0, 1920, 1080), rect(0, 0, 1920, 1080));
    let upper = monitor(rect(0, 1080, 1920, 1080), rect(0, 1080, 1920, 1080));
    assert_eq!(monitor_index_at(&vec![lower, upper], 10, 1080), Some(1));
}

#[test]
fn screen_info_for_secondary_monitor() {
    let primary = monitor(rect(0, 0, 1920, 1080), rect(0, 0, 1920, 1040));
    let second = monitor(rect(1920, 200, 1280, 800), rect(1920, 200, 1280, 770));
    let info = get_screen_info_at_cursor(&vec![primary, second], 2000, 300).unwrap();
    assert_eq!((info.screen_x, info.screen_y, info.screen_width, info.screen_height), (1920, 80, 1280, 800));
    assert_eq!((info.visible_x, info.visible_y, info.visible_width, info.visible_height), (1920, 110, 1280, 770));
    assert_eq!((info.cursor_x, info.cursor_y, info.primary_height), (2000, 780, 1080));
    assert_eq!(get_screen_info_at_cursor(&vec![primary, second], -5, 300), None);
    assert_eq!(get_screen_info_at_cursor(&vec![], 0, 0), None);
}

#[test]
fn monitor_at_cursor_keeps_native_frame() {
    let primary = monitor(rect(0, 0, 1920, 1080), rect(0, 70, 1920, 985));
    let m = get_monitor_at_cursor(&vec![primary], 10, 20).unwrap();
    assert_eq!((m.x, m.y, m.width, m.height), (0, 0, 1920, 1080));
    assert_eq!((m.visible_x, m.visible_y, m.visible_width, m.visible_height), (0, 25, 1920, 985));
    assert_eq!((m.cursor_x, m.cursor_y, m.primary_height), (10, 20, 1080));
    assert!(get_monitor_at_cursor(&vec![primary], 5000, 20).is_none());
}

#[test]
fn visible_area_insets() {
    let primary = monitor(rect(0, 0, 1920, 1080), rect(0, 70, 1920, 985));
    let info = get_screen_info_at_cursor(&vec![primary], 10, 20);
    assert_eq!(
        get_screen_visible_area(&info),
        ScreenVisibleArea { top_inset: 25, bottom_inset: 70, left_inset: 0, right_inset: 0 }
    );
    assert_eq!(
        get_screen_visible_area(&None),
        ScreenVisibleArea { top_inset: 0, bottom_inset: 0, left_inset: 0, right_inset: 0 }
    );
}

#[test]
fn hover_boxes() {
    assert_eq!(hover_box_size(false), (56, 14));
    assert_eq!(hover_box_size(true), (136, 48));
    assert!(is_within(10, 10, 10, 10, 5, 5));
    assert!(is_within(15, 15, 10, 10, 5, 5));
    assert!(!is_within(16, 15, 10, 10, 5, 5));
}

#[test]
fn expanded_box_supersedes_collapsed_box() {
    let frame = rect(0, 0, 1920, 1080);
    // collapsed box: x 932..988, y 1058..1072; expanded box: x 892..1028, y 1024..1072
    assert!(pill_hovered(frame, 8, false, 960, 1065));
    assert!(!pill_hovered(frame, 8, false, 900, 1030));
    assert!(pill_hovered(frame, 8, true, 900, 1030));
    assert!(pill_hovered(frame, 8, true, 960, 1065));
    assert!(!pill_hovered(frame, 8, true, 1029, 1030));
}

#[test]
fn state_machine_active_overrides_hover() {
    let t = PillState::new().step(false, true, true);
    assert!(!t.next.hovered);
    assert!(t.next.expanded);
    assert!(t.expanded_changed);
    assert!(!t.hovered_changed);
    assert!(t.is_observable());
    let off = PillState { hovered: true, expanded: true }.step(true, false, false);
    assert!(!off.next.hovered && !off.next.expanded);
}

#[test]
fn tick_places_all_overlays() {
    let mut follower = CursorFollower::new();
    let plan = follower.tick(&input(Some(screen_with_cursor(10, 10)), false));
    assert_eq!(
        plan.moves,
        vec![
            WindowMove { overlay: OverlayKind::Pill, x: 832, y: 976 },
            WindowMove { overlay: OverlayKind::Toast, x: 1540, y: 40 },
            WindowMove { overlay: OverlayKind::Agent, x: 16, y: 56 },
        ]
    );
    assert_eq!(plan.click_through, None);
    assert_eq!(plan.notify, None);
}

#[test]
fn tick_skips_missing_windows() {
    let mut follower = CursorFollower::new();
    let mut i = input(Some(screen_with_cursor(960, 1065)), false);
    i.pill_exists = false;
    i.agent_exists = false;
    let plan = follower.tick(&i);
    assert_eq!(plan.moves, vec![WindowMove { overlay: OverlayKind::Toast, x: 1540, y: 40 }]);
    assert_eq!(plan.notify, None);
    assert_eq!(follower.state, PillState { hovered: false, expanded: false });
}

#[test]
fn tick_is_idempotent() {
    let mut follower = CursorFollower::new();
    let i = input(Some(screen_with_cursor(960, 1065)), false);
    let first = follower.tick(&i);
    let second = follower.tick(&i);
    assert_eq!(first.moves, second.moves);
    assert_eq!(first.notify, Some(PillExpandedPayload { expanded: true, hovered: true }));
    assert_eq!(second.notify, None);
    assert_eq!(second.click_through, None);
}

#[test]
fn hover_entry_notifies_once() {
    let mut follower = CursorFollower::new();
    let outside = follower.tick(&input(Some(screen_with_cursor(100, 100)), false));
    assert_eq!(outside.notify, None);
    let enter = follower.tick(&input(Some(screen_with_cursor(960, 1065)), false));
    assert_eq!(enter.notify, Some(PillExpandedPayload { expanded: true, hovered: true }));
    assert_eq!(enter.click_through, Some(false));
    let deeper = follower.tick(&input(Some(screen_with_cursor(920, 1040)), false));
    assert_eq!(deeper.notify, None);
    assert_eq!(deeper.click_through, None);
    let leave = follower.tick(&input(Some(screen_with_cursor(100, 100)), false));
    assert_eq!(leave.notify, Some(PillExpandedPayload { expanded: false, hovered: false }));
    assert_eq!(leave.click_through, Some(true));
}

#[test]
fn active_expands_without_hover() {
    let mut follower = CursorFollower::new();
    let plan = follower.tick(&input(Some(screen_with_cursor(100, 100)), true));
    assert_eq!(plan.notify, Some(PillExpandedPayload { expanded: true, hovered: false }));
    assert_eq!(plan.click_through, Some(false));
    assert_eq!(follower.state, PillState { hovered: false, expanded: true });
}

#[test]
fn hover_disabled_never_hovers() {
    let mut follower = CursorFollower::new();
    let mut i = input(Some(screen_with_cursor(960, 1065)), false);
    i.hover_enabled = false;
    let plan = follower.tick(&i);
    assert_eq!(plan.notify, None);
    assert_eq!(follower.state, PillState { hovered: false, expanded: false });
}

#[test]
fn tick_without_screen_is_noop() {
    let mut follower = CursorFollower { state: PillState { hovered: true, expanded: true } };
    let plan = follower.tick(&input(None, false));
    assert!(plan.moves.is_empty());
    assert_eq!(plan.click_through, None);
    assert_eq!(plan.notify, None);
    assert_eq!(follower.state, PillState { hovered: true, expanded: true });
}

#[test]
fn top_left_monitor_with_work_area() {
    let frame = rect(3840, 0, 3840, 2160);
    let work = rect(3850, 60, 3830, 2080);
    let info = overlay_follower::screen::screen_info_from_top_left(frame, work, 200, 4000, 101);
    assert_eq!((info.screen_x, info.screen_y, info.screen_width, info.screen_height), (1920, 0, 1920, 1080));
    assert_eq!((info.visible_x, info.visible_y, info.visible_width, info.visible_height), (1925, 30, 1915, 1040));
    assert_eq!((info.cursor_x, info.cursor_y), (2000, 50));
}

#[test]
fn odd_edges_stay_contained_at_double_scale() {
    // frame x 1..4, usable area x 2..4, cursor at x 3, all at 200%
    let m = MonitorInfo { frame: rect(1, 0, 3, 10), visible_frame: rect(2, 0, 2, 10), scale_percent: 200 };
    let info = get_screen_info_at_cursor(&vec![m], 3, 5).unwrap();
    assert_eq!((info.screen_x, info.screen_width), (0, 2));
    assert_eq!((info.visible_x, info.visible_width), (1, 1));
    assert_eq!(info.cursor_x, 1);
    assert!(info.screen_x <= info.visible_x);
    assert!(info.visible_x + info.visible_width <= info.screen_x + info.screen_width);
    assert!(info.screen_x <= info.cursor_x && info.cursor_x < info.screen_x + info.screen_width);
    assert!(info.screen_y < info.cursor_y && info.cursor_y <= info.screen_y + info.screen_height);
    assert_eq!((info.screen_y, info.screen_height, info.cursor_y), (0, 5, 3));
}

#[test]
fn cursor_stays_off_the_far_edge_at_double_scale() {
    // frame x 1..3 at 200%; the cursor at x 2 must stay strictly inside
    let m = MonitorInfo { frame: rect(1, 0, 2, 10), visible_frame: rect(1, 0, 2, 10), scale_percent: 200 };
    let info = get_screen_info_at_cursor(&vec![m], 2, 5).unwrap();
    assert_eq!((info.screen_x, info.screen_width, info.cursor_x), (0, 2, 1));
    assert!(info.cursor_x < info.screen_x + info.screen_width);
    // an odd right edge: x 0..3841, cursor at 3840
    let wide = MonitorInfo { frame: rect(0, 0, 3841, 2160), visible_frame: rect(0, 0, 3841, 2160), scale_percent: 200 };
    let info = get_screen_info_at_cursor(&vec![wide], 3840, 0).unwrap();
    assert_eq!((info.screen_x, info.screen_width, info.cursor_x), (0, 1921, 1920));
    assert_eq!((info.screen_y, info.screen_height, info.cursor_y), (0, 1080, 1080));
    assert!(info.screen_y < info.cursor_y && info.cursor_y <= info.screen_y + info.screen_height);
}

#[test]
fn shared_edge_at_mixed_scales() {
    let left = MonitorInfo { frame: rect(0, 0, 1920, 1080), visible_frame: rect(0, 0, 1920, 1080), scale_percent: 100 };
    let right = MonitorInfo { frame: rect(1920, 0, 2880, 1620), visible_frame: rect(1920, 0, 2880, 1620), scale_percent: 150 };
    let info = get_screen_info_at_cursor(&vec![left, right], 1920, 500).unwrap();
    assert_eq!(info.scale_percent, 150);
    assert_eq!((info.screen_x, info.screen_width), (1280, 1920));
    assert_eq!(info.primary_height, 1080);
}

#[test]
fn overlay_page_queries() {
    assert_eq!(overlay_query(Some("a=2"), "pill-overlay"), "a=2&pill-overlay=1");
    assert_eq!(overlay_query(Some(""), "pill-overlay"), "pill-overlay=1");
    assert_eq!(overlay_query(None, "toast-overlay"), "toast-overlay=1");
    assert_eq!(overlay_page_path("agent-overlay"), "index.html?agent-overlay=1");
}
