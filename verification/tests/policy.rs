use wmcore::dispatch::{pointer_motion, view_request_state, Command, OutputModel, ViewInfo};
use wmcore::geometry::{resolve_view_geometry, Geometry, Point, Size, ViewKind};
use wmcore::keys::{
    resolve_binding, Action, KeyPhase, KEYSYM_DOWN, KEYSYM_ESCAPE, KEYSYM_Q, KEYSYM_RETURN,
    MOD_ALT, MOD_CTRL, MOD_SHIFT, MOD_SUPER,
};
use wmcore::stack::topmost_position;

fn full_hd() -> Size {
    Size { w: 1920, h: 1080 }
}

fn small_geometry() -> Geometry {
    Geometry {
        origin: Point { x: 40, y: 30 },
        size: Size { w: 300, h: 200 },
    }
}

fn full_geometry(res: Size) -> Geometry {
    Geometry {
        origin: Point { x: 0, y: 0 },
        size: res,
    }
}

fn handles(m: &OutputModel) -> Vec<usize> {
    m.views.iter().map(|v| v.handle).collect()
}

fn activated(m: &OutputModel) -> Vec<bool> {
    m.views.iter().map(|v| v.activated).collect()
}

// --- geometry resolver ---

#[test]
fn resolver_generic_fills_output() {
    let r = resolve_view_geometry(full_hd(), ViewKind::Generic);
    assert_eq!(r, Some(full_geometry(full_hd())));
}

#[test]
fn resolver_specialized_untouched() {
    let r = resolve_view_geometry(full_hd(), ViewKind::Specialized);
    assert_eq!(r, None);
}

#[test]
fn resolver_zero_resolution() {
    let zero = Size { w: 0, h: 0 };
    let r = resolve_view_geometry(zero, ViewKind::Generic);
    assert_eq!(r, Some(full_geometry(zero)));
}

// --- focus stack wrap-around indexing ---

#[test]
fn topmost_empty_stack_is_none() {
    assert_eq!(topmost_position(0, 0), None);
    let m = OutputModel::new(full_hd(), 1);
    assert_eq!(m.get_topmost_view(0), None);
}

#[test]
fn topmost_zero_offset_is_last() {
    assert_eq!(topmost_position(1, 0), Some(0));
    assert_eq!(topmost_position(3, 0), Some(2));
}

#[test]
fn topmost_full_cycle_wraps_to_top() {
    // offset = N equals offset = 0
    assert_eq!(topmost_position(1, 1), Some(0));
    assert_eq!(topmost_position(3, 3), Some(2));
}

#[test]
fn topmost_offset_n_minus_one_is_second_to_last() {
    assert_eq!(topmost_position(2, 1), Some(0));
    assert_eq!(topmost_position(3, 2), Some(1));
}

#[test]
fn topmost_view_follows_stack_order() {
    let mut m = OutputModel::new(full_hd(), 1);
    m.view_created(10, ViewKind::Generic, small_geometry());
    m.view_created(20, ViewKind::Generic, small_geometry());
    m.view_created(30, ViewKind::Generic, small_geometry());
    assert_eq!(m.get_topmost_view(0), Some(30));
    // offset 1 wraps past the top to the bottom of the stack
    assert_eq!(m.get_topmost_view(1), Some(10));
    // offset N - 1 selects the second-to-last view
    assert_eq!(m.get_topmost_view(2), Some(20));
    assert_eq!(m.get_topmost_view(3), Some(30));
}

// --- keybinding resolver ---

#[test]
fn bindings_require_designator_modifier() {
    assert_eq!(resolve_binding(0, KEYSYM_Q), None);
    assert_eq!(resolve_binding(MOD_SHIFT | MOD_CTRL, KEYSYM_Q), None);
    assert_eq!(resolve_binding(MOD_ALT, KEYSYM_ESCAPE), None);
}

#[test]
fn binding_table_matches_exactly() {
    assert_eq!(
        resolve_binding(MOD_SUPER, KEYSYM_Q),
        Some(Action::CloseFocusedView)
    );
    assert_eq!(
        resolve_binding(MOD_SUPER, KEYSYM_DOWN),
        Some(Action::CycleFocusBackward)
    );
    assert_eq!(resolve_binding(MOD_SUPER, KEYSYM_ESCAPE), Some(Action::Terminate));
    assert_eq!(
        resolve_binding(MOD_SUPER, KEYSYM_RETURN),
        Some(Action::LaunchTerminal)
    );
    // unbound keysym (letter z)
    assert_eq!(resolve_binding(MOD_SUPER, 0x7a), None);
}

#[test]
fn bindings_allow_extra_modifiers() {
    assert_eq!(
        resolve_binding(MOD_SUPER | MOD_SHIFT, KEYSYM_DOWN),
        Some(Action::CycleFocusBackward)
    );
}

// --- layout engine ---

#[test]
fn layout_resizes_generic_and_skips_specialized() {
    let mut m = OutputModel::new(full_hd(), 1);
    m.view_created(1, ViewKind::Generic, small_geometry());
    m.view_created(2, ViewKind::Specialized, small_geometry());
    let cmds = m.apply_layout();
    assert_eq!(m.views[0].geometry, full_geometry(full_hd()));
    assert_eq!(m.views[1].geometry, small_geometry());
    assert_eq!(cmds, vec![Command::SetGeometry(1, full_geometry(full_hd()))]);
}

#[test]
fn layout_twice_is_idempotent() {
    let mut m = OutputModel::new(full_hd(), 1);
    m.view_created(1, ViewKind::Generic, small_geometry());
    m.view_created(2, ViewKind::Specialized, small_geometry());
    m.view_created(3, ViewKind::Generic, small_geometry());
    let first = m.apply_layout();
    let views_after_first = m.views.clone();
    let second = m.apply_layout();
    assert_eq!(m.views, views_after_first);
    assert_eq!(first, second);
}

#[test]
fn resolution_change_resizes_generic_views_only() {
    let mut m = OutputModel::new(full_hd(), 1);
    m.view_created(1, ViewKind::Generic, small_geometry());
    m.view_created(2, ViewKind::Specialized, small_geometry());
    m.view_created(3, ViewKind::Generic, small_geometry());
    let to = Size { w: 1280, h: 720 };
    let cmds = m.output_resolution_changed(full_hd(), to);
    assert_eq!(m.resolution, to);
    assert_eq!(m.views[0].geometry, full_geometry(to));
    assert_eq!(m.views[1].geometry, small_geometry());
    assert_eq!(m.views[2].geometry, full_geometry(to));
    assert_eq!(
        cmds,
        vec![
            Command::SetGeometry(1, full_geometry(to)),
            Command::SetGeometry(3, full_geometry(to)),
        ]
    );
}

#[test]
fn resolution_change_with_no_views_issues_nothing() {
    let mut m = OutputModel::new(full_hd(), 1);
    let cmds = m.output_resolution_changed(full_hd(), Size { w: 800, h: 600 });
    assert_eq!(cmds, Vec::new());
}

// --- view lifecycle ---

#[test]
fn created_view_gets_mask_raise_focus_and_layout() {
    let mut m = OutputModel::new(full_hd(), 7);
    let (consumed, cmds) = m.view_created(5, ViewKind::Generic, small_geometry());
    assert!(consumed);
    assert_eq!(
        cmds,
        vec![
            Command::SetMask(5, 7),
            Command::BringToFront(5),
            Command::FocusView(5),
            Command::SetGeometry(5, full_geometry(full_hd())),
        ]
    );
    assert_eq!(m.views[0].mask, 7);
    assert!(m.views[0].activated);
}

#[test]
fn three_views_created_in_order_focus_the_last() {
    let mut m = OutputModel::new(full_hd(), 1);
    m.view_created(1, ViewKind::Generic, small_geometry());
    m.view_created(2, ViewKind::Generic, small_geometry());
    m.view_created(3, ViewKind::Generic, small_geometry());
    assert_eq!(handles(&m), vec![1, 2, 3]);
    assert_eq!(activated(&m), vec![false, false, true]);
    assert_eq!(m.get_topmost_view(0), Some(3));
}

#[test]
fn destroying_top_view_focuses_the_next() {
    let mut m = OutputModel::new(full_hd(), 1);
    m.view_created(1, ViewKind::Generic, small_geometry());
    m.view_created(2, ViewKind::Generic, small_geometry());
    m.view_created(3, ViewKind::Generic, small_geometry());
    let cmds = m.view_destroyed(3);
    assert_eq!(handles(&m), vec![1, 2]);
    assert_eq!(activated(&m), vec![false, true]);
    assert_eq!(
        cmds,
        vec![
            Command::FocusView(2),
            Command::SetGeometry(1, full_geometry(full_hd())),
            Command::SetGeometry(2, full_geometry(full_hd())),
        ]
    );
}

#[test]
fn destroying_last_view_leaves_empty_stack() {
    let mut m = OutputModel::new(full_hd(), 1);
    m.view_created(1, ViewKind::Generic, small_geometry());
    let cmds = m.view_destroyed(1);
    assert_eq!(handles(&m), Vec::<usize>::new());
    assert_eq!(cmds, Vec::new());
    assert_eq!(m.get_topmost_view(0), None);
}

#[test]
fn destroying_a_middle_view_keeps_focus_on_top() {
    let mut m = OutputModel::new(full_hd(), 1);
    m.view_created(1, ViewKind::Generic, small_geometry());
    m.view_created(2, ViewKind::Generic, small_geometry());
    m.view_created(3, ViewKind::Generic, small_geometry());
    m.view_destroyed(2);
    assert_eq!(handles(&m), vec![1, 3]);
    assert_eq!(activated(&m), vec![false, true]);
}

#[test]
fn destroying_unknown_handle_changes_nothing_but_refocuses() {
    let mut m = OutputModel::new(full_hd(), 1);
    m.view_created(1, ViewKind::Specialized, small_geometry());
    let cmds = m.view_destroyed(99);
    assert_eq!(handles(&m), vec![1]);
    assert_eq!(activated(&m), vec![true]);
    assert_eq!(cmds, vec![Command::FocusView(1)]);
}

// --- focus and state pass-through ---

#[test]
fn view_focus_updates_the_activated_flag() {
    let mut m = OutputModel::new(full_hd(), 1);
    m.view_created(1, ViewKind::Generic, small_geometry());
    m.view_created(2, ViewKind::Generic, small_geometry());
    let cmd = m.view_focus(1, true);
    assert_eq!(cmd, Command::SetActivated(1, true));
    assert!(m.views[0].activated);
    let cmd = m.view_focus(1, false);
    assert_eq!(cmd, Command::SetActivated(1, false));
    assert!(!m.views[0].activated);
}

#[test]
fn view_request_state_is_granted_unconditionally() {
    let cmd = view_request_state(4, 0b100, true);
    assert_eq!(cmd, Command::SetViewState(4, 0b100, true));
    let cmd = view_request_state(4, 0b100, false);
    assert_eq!(cmd, Command::SetViewState(4, 0b100, false));
}

#[test]
fn pointer_motion_moves_cursor_and_is_not_consumed() {
    let p = Point { x: 12, y: -3 };
    let (consumed, cmd) = pointer_motion(p);
    assert!(!consumed);
    assert_eq!(cmd, Command::SetPointerPosition(p));
}

// --- keyboard dispatch ---

#[test]
fn super_q_closes_the_focused_view() {
    let mut m = OutputModel::new(full_hd(), 1);
    m.view_created(7, ViewKind::Generic, small_geometry());
    let (consumed, cmds) = m.keyboard_key(7, MOD_SUPER, KEYSYM_Q, KeyPhase::Pressed);
    assert!(consumed);
    assert_eq!(cmds, vec![Command::CloseView(7)]);
    // the stack changes only when the backend reports the destroy
    assert_eq!(handles(&m), vec![7]);
}

#[test]
fn unbound_super_chord_is_consumed_without_action() {
    let mut m = OutputModel::new(full_hd(), 1);
    m.view_created(7, ViewKind::Generic, small_geometry());
    // letter z is bound to nothing
    let (consumed, cmds) = m.keyboard_key(7, MOD_SUPER, 0x7a, KeyPhase::Pressed);
    assert!(consumed);
    assert_eq!(cmds, Vec::new());
    assert_eq!(handles(&m), vec![7]);
}

#[test]
fn key_without_designator_modifier_is_forwarded() {
    let mut m = OutputModel::new(full_hd(), 1);
    m.view_created(7, ViewKind::Generic, small_geometry());
    let (consumed, cmds) = m.keyboard_key(7, 0, KEYSYM_Q, KeyPhase::Pressed);
    assert!(!consumed);
    assert_eq!(cmds, Vec::new());
}

#[test]
fn key_release_is_forwarded() {
    let mut m = OutputModel::new(full_hd(), 1);
    m.view_created(7, ViewKind::Generic, small_geometry());
    let (consumed, cmds) = m.keyboard_key(7, MOD_SUPER, KEYSYM_Q, KeyPhase::Released);
    assert!(!consumed);
    assert_eq!(cmds, Vec::new());
}

#[test]
fn super_escape_terminates() {
    let mut m = OutputModel::new(full_hd(), 1);
    let (consumed, cmds) = m.keyboard_key(0, MOD_SUPER, KEYSYM_ESCAPE, KeyPhase::Pressed);
    assert!(consumed);
    assert_eq!(cmds, vec![Command::Terminate]);
}

#[test]
fn super_return_launches_the_terminal() {
    let mut m = OutputModel::new(full_hd(), 1);
    let (consumed, cmds) = m.keyboard_key(0, MOD_SUPER, KEYSYM_RETURN, KeyPhase::Pressed);
    assert!(consumed);
    assert_eq!(cmds, vec![Command::LaunchTerminal]);
}

#[test]
fn super_down_cycles_focus_backward() {
    let mut m = OutputModel::new(full_hd(), 1);
    m.view_created(1, ViewKind::Generic, small_geometry());
    m.view_created(2, ViewKind::Generic, small_geometry());
    m.view_created(3, ViewKind::Generic, small_geometry());
    // 3 is on top; Super+Down sends it to the back and focuses the new top
    let (consumed, cmds) = m.keyboard_key(3, MOD_SUPER, KEYSYM_DOWN, KeyPhase::Pressed);
    assert!(consumed);
    assert_eq!(handles(&m), vec![3, 1, 2]);
    assert_eq!(activated(&m), vec![false, false, true]);
    assert_eq!(cmds, vec![Command::SendToBack(3), Command::FocusView(2)]);
}

#[test]
fn super_down_twice_wraps_focus_around() {
    let mut m = OutputModel::new(full_hd(), 1);
    m.view_created(1, ViewKind::Generic, small_geometry());
    m.view_created(2, ViewKind::Generic, small_geometry());
    m.view_created(3, ViewKind::Generic, small_geometry());
    m.keyboard_key(3, MOD_SUPER, KEYSYM_DOWN, KeyPhase::Pressed);
    let (_, cmds) = m.keyboard_key(2, MOD_SUPER, KEYSYM_DOWN, KeyPhase::Pressed);
    assert_eq!(handles(&m), vec![2, 3, 1]);
    assert_eq!(activated(&m), vec![false, false, true]);
    assert_eq!(cmds, vec![Command::SendToBack(2), Command::FocusView(1)]);
}

#[test]
fn super_down_on_a_single_view_keeps_it_focused() {
    let mut m = OutputModel::new(full_hd(), 1);
    m.view_created(1, ViewKind::Generic, small_geometry());
    let (consumed, cmds) = m.keyboard_key(1, MOD_SUPER, KEYSYM_DOWN, KeyPhase::Pressed);
    assert!(consumed);
    assert_eq!(handles(&m), vec![1]);
    assert_eq!(activated(&m), vec![true]);
    assert_eq!(cmds, vec![Command::SendToBack(1), Command::FocusView(1)]);
}

// --- model bookkeeping ---

#[test]
fn find_view_reports_stack_positions() {
    let mut m = OutputModel::new(full_hd(), 1);
    m.view_created(5, ViewKind::Generic, small_geometry());
    m.view_created(9, ViewKind::Specialized, small_geometry());
    assert_eq!(m.find_view(5), Some(0));
    assert_eq!(m.find_view(9), Some(1));
    assert_eq!(m.find_view(6), None);
}

#[test]
fn new_view_record_carries_requested_geometry() {
    let mut m = OutputModel::new(full_hd(), 3);
    m.view_created(5, ViewKind::Specialized, small_geometry());
    assert_eq!(
        m.views[0],
        ViewInfo {
            handle: 5,
            kind: ViewKind::Specialized,
            geometry: small_geometry(),
            mask: 3,
            activated: true,
        }
    );
}
