//! End-to-end scenarios and per-handler behavior of the controller.

use tabbed_rs::config::{Action, Config, Keybind, Mod, default_config};
use tabbed_rs::state::{BAR_HEIGHT, Cmd, Event, Tabbed, WM_NAME_ATOM, should_send_delete};

const WIN: u32 = 1;
const ROOT: u32 = 7;
const DELETE_ATOM: u32 = 99;

fn fresh(close_on_empty: bool) -> Tabbed {
    Tabbed::new(default_config(), WIN, 200, 200, close_on_empty, DELETE_ATOM)
}

fn attach(t: &mut Tabbed, window: u32) -> Vec<Cmd> {
    t.handle_event(&Event::ReparentNotify { window, parent: WIN })
}

fn detach(t: &mut Tabbed, window: u32) -> Vec<Cmd> {
    t.handle_event(&Event::ReparentNotify { window, parent: ROOT })
}

#[test]
fn scenario_attach_first_tab() {
    let mut t = fresh(false);
    t.need_redraw = false;
    let cmds = attach(&mut t, 0x100);
    assert_eq!(t.children, vec![0x100]);
    assert_eq!(t.focused, Some(0));
    assert!(t.need_redraw);
    assert!(t.running);
    assert_eq!(
        cmds,
        vec![
            Cmd::RaiseAndFill { window: 0x100, width: 200, height: 180 },
            Cmd::SetInputFocus { window: 0x100 },
            Cmd::WatchProperties { window: 0x100 },
            Cmd::FetchName { window: 0x100 },
        ]
    );
    match t.drawbar() {
        tabbed_rs::draw::BarRender::Tabs { tabs } => assert_eq!(tabs.len(), 1),
        tabbed_rs::draw::BarRender::Empty { .. } => panic!("one tab expected"),
    }
}

#[test]
fn scenario_detach_focused_middle() {
    let mut t = fresh(false);
    let (a, b, c) = (0xA, 0xB, 0xC);
    attach(&mut t, a);
    attach(&mut t, b);
    attach(&mut t, c);
    t.focus(Some(1));
    assert_eq!(t.focused, Some(1));
    detach(&mut t, b);
    assert_eq!(t.children, vec![a, c]);
    assert_eq!(t.focused, Some(0));
    assert!(t.running);
}

#[test]
fn scenario_close_on_empty() {
    let mut t = fresh(true);
    attach(&mut t, 0x42);
    assert!(t.running);
    t.handle_event(&Event::DestroyNotify { window: 0x42 });
    assert!(t.children.is_empty());
    assert_eq!(t.focused, None);
    assert!(!t.running);
    // The cleanup protocol then runs over an empty child list: a no-op.
    let targets = t.cleanup();
    assert!(targets.is_empty());
    assert!(!t.running);
}

#[test]
fn detach_while_unfocused_keeps_focus_valid() {
    let mut t = fresh(false);
    attach(&mut t, 1000);
    attach(&mut t, 2000);
    attach(&mut t, 3000);
    t.focus(Some(0));
    // Removal after the focus index leaves the focus where it was.
    detach(&mut t, 3000);
    assert_eq!(t.children, vec![1000, 2000]);
    assert_eq!(t.focused, Some(0));
}

#[test]
fn detach_last_indexed_focused_tab_wraps() {
    let mut t = fresh(false);
    attach(&mut t, 10);
    attach(&mut t, 20);
    // focus is on the newest tab, index 1
    assert_eq!(t.focused, Some(1));
    detach(&mut t, 20);
    assert_eq!(t.children, vec![10]);
    assert_eq!(t.focused, Some(0));
}

#[test]
fn detach_untracked_window_is_ignored() {
    let mut t = fresh(true);
    attach(&mut t, 10);
    let cmds = detach(&mut t, 555);
    assert!(cmds.is_empty());
    assert_eq!(t.children, vec![10]);
    assert_eq!(t.focused, Some(0));
    assert!(t.running);
}

#[test]
fn reattach_tracked_window_is_focus_request() {
    let mut t = fresh(false);
    attach(&mut t, 10);
    attach(&mut t, 20);
    let cmds = attach(&mut t, 10);
    // still two tabs, no duplicate; focus moved to the requested window
    assert_eq!(t.children, vec![10, 20]);
    assert_eq!(t.focused, Some(0));
    assert_eq!(
        cmds,
        vec![
            Cmd::RaiseAndFill { window: 10, width: 200, height: 180 },
            Cmd::SetInputFocus { window: 10 },
        ]
    );
}

#[test]
fn cycle_round_trip_restores_focus() {
    let mut t = fresh(false);
    attach(&mut t, 1);
    attach(&mut t, 2);
    attach(&mut t, 3);
    t.focus(Some(1));
    t.cycle_focus_up();
    assert_eq!(t.focused, Some(2));
    t.cycle_focus_down();
    assert_eq!(t.focused, Some(1));
}

#[test]
fn cycle_wraps_at_both_ends() {
    let mut t = fresh(false);
    attach(&mut t, 1);
    attach(&mut t, 2);
    attach(&mut t, 3);
    t.focus(Some(2));
    t.cycle_focus_up();
    assert_eq!(t.focused, Some(0));
    t.cycle_focus_down();
    assert_eq!(t.focused, Some(2));
}

#[test]
fn swap_moves_tab_and_keeps_it_focused() {
    let mut t = fresh(false);
    attach(&mut t, 0xA);
    attach(&mut t, 0xB);
    attach(&mut t, 0xC);
    t.focus(Some(1));
    t.swap_focused_relative(1);
    assert_eq!(t.children, vec![0xA, 0xC, 0xB]);
    assert_eq!(t.focused, Some(2));
}

#[test]
fn swap_round_trip_restores_order_and_focus() {
    let mut t = fresh(false);
    attach(&mut t, 0xA);
    attach(&mut t, 0xB);
    attach(&mut t, 0xC);
    t.focus(Some(1));
    t.swap_focused_relative(1);
    t.swap_focused_relative(-1);
    assert_eq!(t.children, vec![0xA, 0xB, 0xC]);
    assert_eq!(t.focused, Some(1));
    // and across the wrap at the end of the list
    t.focus(Some(2));
    t.swap_focused_relative(1);
    assert_eq!(t.children, vec![0xC, 0xB, 0xA]);
    assert_eq!(t.focused, Some(0));
    t.swap_focused_relative(-1);
    assert_eq!(t.children, vec![0xA, 0xB, 0xC]);
    assert_eq!(t.focused, Some(2));
}

#[test]
fn focus_out_of_range_is_silently_ignored() {
    let mut t = fresh(false);
    attach(&mut t, 10);
    t.need_redraw = false;
    let cmds = t.focus(Some(5));
    assert!(cmds.is_empty());
    assert_eq!(t.focused, Some(0));
    assert!(!t.need_redraw);
}

#[test]
fn focus_sets_redraw_only_on_change() {
    let mut t = fresh(false);
    attach(&mut t, 10);
    attach(&mut t, 20);
    t.need_redraw = false;
    t.focus(Some(1));
    assert!(!t.need_redraw);
    t.focus(Some(0));
    assert!(t.need_redraw);
}

#[test]
fn key_press_first_match_wins() {
    let keybinds = vec![
        Keybind { modifiers: vec![Mod::CONTROL], key: 10, action: Action::Focus(1) },
        Keybind { modifiers: vec![Mod::CONTROL], key: 10, action: Action::Focus(0) },
    ];
    let config = Config { keybinds, auto_attach: false, colors: true, font: None };
    let mut t = Tabbed::new(config, WIN, 200, 200, false, DELETE_ATOM);
    attach(&mut t, 10);
    attach(&mut t, 20);
    t.handle_event(&Event::KeyPress { detail: 10, state: 0x4 });
    assert_eq!(t.focused, Some(1));
}

#[test]
fn key_press_unbound_does_nothing() {
    let mut t = fresh(false);
    attach(&mut t, 10);
    attach(&mut t, 20);
    let cmds = t.handle_event(&Event::KeyPress { detail: 200, state: 0 });
    assert!(cmds.is_empty());
    assert_eq!(t.focused, Some(1));
}

#[test]
fn default_keybinds_drive_the_engine() {
    let mut t = fresh(false);
    attach(&mut t, 10);
    attach(&mut t, 20);
    attach(&mut t, 30);
    // control+shift, key 46: focus up (wraps from the newest tab to 0)
    t.handle_event(&Event::KeyPress { detail: 46, state: 0x5 });
    assert_eq!(t.focused, Some(0));
    // control, key 11: jump to tab 1
    t.handle_event(&Event::KeyPress { detail: 11, state: 0x4 });
    assert_eq!(t.focused, Some(1));
    // control+shift, key 22: detach the focused tab (asynchronous: the
    // list is untouched until the notification arrives)
    let cmds = t.handle_event(&Event::KeyPress { detail: 22, state: 0x5 });
    assert_eq!(cmds, vec![Cmd::ReparentToRoot { window: 20 }]);
    assert_eq!(t.children, vec![10, 20, 30]);
    // control+shift, key 9: detach all
    let cmds = t.handle_event(&Event::KeyPress { detail: 9, state: 0x5 });
    assert_eq!(
        cmds,
        vec![
            Cmd::ReparentToRoot { window: 10 },
            Cmd::ReparentToRoot { window: 20 },
            Cmd::ReparentToRoot { window: 30 },
        ]
    );
    assert_eq!(t.children, vec![10, 20, 30]);
}

#[test]
fn toggle_auto_attach_is_a_noop() {
    let mut t = fresh(false);
    attach(&mut t, 10);
    let before_focus = t.focused;
    let cmds = t.do_action(&Action::ToggleAutoAttach);
    assert!(cmds.is_empty());
    assert_eq!(t.focused, before_focus);
    assert_eq!(t.children, vec![10]);
}

#[test]
fn button_press_selects_slots() {
    let mut t = fresh(false);
    attach(&mut t, 10);
    attach(&mut t, 20);
    // width 200, two tabs: x = 0 hits tab 0
    t.handle_event(&Event::ButtonPress { event_x: 0, event_y: 5 });
    assert_eq!(t.focused, Some(0));
    // x just under the width hits the last tab
    t.handle_event(&Event::ButtonPress { event_x: 199, event_y: 5 });
    assert_eq!(t.focused, Some(1));
    // x right at the slot boundary hits the second tab
    t.handle_event(&Event::ButtonPress { event_x: 100, event_y: 5 });
    assert_eq!(t.focused, Some(1));
}

#[test]
fn button_press_below_band_is_ignored() {
    let mut t = fresh(false);
    attach(&mut t, 10);
    attach(&mut t, 20);
    t.focus(Some(0));
    let cmds = t.handle_event(
        &Event::ButtonPress { event_x: 150, event_y: (BAR_HEIGHT + 1) as i16 },
    );
    assert!(cmds.is_empty());
    assert_eq!(t.focused, Some(0));
}

#[test]
fn button_press_with_no_children_is_ignored() {
    let mut t = fresh(false);
    let cmds = t.handle_event(&Event::ButtonPress { event_x: 10, event_y: 5 });
    assert!(cmds.is_empty());
    assert_eq!(t.focused, None);
}

#[test]
fn configure_notify_updates_geometry() {
    let mut t = fresh(false);
    attach(&mut t, 10);
    t.need_redraw = false;
    let cmds = t.handle_event(&Event::ConfigureNotify { window: WIN, width: 640, height: 480 });
    assert_eq!((t.win_width, t.win_height), (640, 480));
    assert!(t.need_redraw);
    assert_eq!(
        cmds,
        vec![
            Cmd::ResizeSurface { width: 640, height: 480 },
            Cmd::RaiseAndFill { window: 10, width: 640, height: 460 },
            Cmd::SetInputFocus { window: 10 },
        ]
    );
}

#[test]
fn configure_notify_same_size_is_ignored() {
    let mut t = fresh(false);
    t.need_redraw = false;
    let cmds = t.handle_event(&Event::ConfigureNotify { window: WIN, width: 200, height: 200 });
    assert!(cmds.is_empty());
    assert!(!t.need_redraw);
}

#[test]
fn configure_notify_other_window_is_ignored() {
    let mut t = fresh(false);
    let cmds = t.handle_event(&Event::ConfigureNotify { window: 555, width: 10, height: 10 });
    assert!(cmds.is_empty());
    assert_eq!((t.win_width, t.win_height), (200, 200));
}

#[test]
fn map_notify_owes_first_paint() {
    let mut t = fresh(false);
    attach(&mut t, 10);
    t.need_redraw = false;
    t.handle_event(&Event::MapNotify { window: WIN });
    assert!(t.need_redraw);
    // without a focused tab nothing is owed
    let mut u = fresh(false);
    u.need_redraw = false;
    u.handle_event(&Event::MapNotify { window: WIN });
    assert!(!u.need_redraw);
}

#[test]
fn property_notify_requests_name_refresh() {
    let mut t = fresh(false);
    attach(&mut t, 10);
    let cmds = t.handle_event(&Event::PropertyNotify { window: 10, atom: WM_NAME_ATOM });
    assert_eq!(cmds, vec![Cmd::FetchName { window: 10 }]);
    // other atoms, or untracked windows, are ignored
    let cmds = t.handle_event(&Event::PropertyNotify { window: 10, atom: WM_NAME_ATOM + 1 });
    assert!(cmds.is_empty());
    let cmds = t.handle_event(&Event::PropertyNotify { window: 555, atom: WM_NAME_ATOM });
    assert!(cmds.is_empty());
}

#[test]
fn check_name_caches_and_marks_dirty_on_change() {
    let mut t = fresh(false);
    attach(&mut t, 10);
    t.need_redraw = false;
    t.check_name(10, String::from("alpha"));
    assert!(t.need_redraw);
    t.need_redraw = false;
    t.check_name(10, String::from("alpha"));
    assert!(!t.need_redraw);
    t.check_name(10, String::from("beta"));
    assert!(t.need_redraw);
}

#[test]
fn close_request_stops_the_loop() {
    let mut t = fresh(false);
    t.handle_event(&Event::ClientMessage { window: WIN, format: 32, data0: DELETE_ATOM });
    assert!(!t.running);
    // wrong format, window or atom: ignored
    let mut u = fresh(false);
    u.handle_event(&Event::ClientMessage { window: WIN, format: 8, data0: DELETE_ATOM });
    u.handle_event(&Event::ClientMessage { window: 555, format: 32, data0: DELETE_ATOM });
    u.handle_event(&Event::ClientMessage { window: WIN, format: 32, data0: DELETE_ATOM + 1 });
    assert!(u.running);
}

#[test]
fn focus_change_events_track_the_flag() {
    let mut t = fresh(false);
    t.handle_event(&Event::FocusOut);
    assert!(!t.is_focused);
    t.handle_event(&Event::FocusIn);
    assert!(t.is_focused);
}

#[test]
fn cleanup_hands_back_children_and_stops() {
    let mut t = fresh(false);
    attach(&mut t, 10);
    attach(&mut t, 20);
    let targets = t.cleanup();
    assert_eq!(targets, vec![10, 20]);
    assert!(!t.running);
    assert_eq!(t.children, vec![10, 20]);
}

#[test]
fn delete_protocol_membership_decides_the_request() {
    assert!(should_send_delete(&vec![1, DELETE_ATOM, 3], DELETE_ATOM));
    assert!(!should_send_delete(&vec![1, 2, 3], DELETE_ATOM));
    assert!(!should_send_delete(&vec![], DELETE_ATOM));
}

#[test]
fn short_container_clamps_content_height() {
    let mut t = Tabbed::new(default_config(), WIN, 100, 10, false, DELETE_ATOM);
    let cmds = attach(&mut t, 10);
    assert_eq!(cmds[0], Cmd::RaiseAndFill { window: 10, width: 100, height: 0 });
}

#[test]
fn focus_stays_valid_through_random_churn() {
    // A longer attach/detach sequence: after every event the focus is
    // either absent or a valid index.
    let mut t = fresh(false);
    let mut seed: u32 = 0x2545;
    let mut present: Vec<u32> = Vec::new();
    for step in 0..200 {
        seed = seed.wrapping_mul(1664525).wrapping_add(1013904223);
        let w = 100 + (seed % 7);
        if seed % 3 == 0 && !present.contains(&w) {
            present.push(w);
            attach(&mut t, w);
        } else {
            present.retain(|&x| x != w);
            detach(&mut t, w);
        }
        if step % 5 == 0 {
            t.cycle_focus_up();
        }
        match t.focused {
            Some(f) => assert!(f < t.children.len(), "invalid focus after step {step}"),
            None => {}
        }
    }
}
