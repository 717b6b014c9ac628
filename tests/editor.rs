use dioxus_gain::bridge::Notification;
use dioxus_gain::session::{EditorPhase, EditorSession};
use dioxus_gain::window::{editor_size, window_spec, ParentWindow, Rgba, SpawnError, EDITOR_SIDE};

fn active_session(capacity: usize) -> EditorSession<f32> {
    let mut s = EditorSession::new(capacity);
    assert!(s.spawn(&ParentWindow::Win32Hwnd(0x1000)).is_ok());
    assert!(s.activate());
    s
}

#[test]
fn size_is_fixed_before_and_after_spawn() {
    assert_eq!(editor_size(), (300, 300));
    let _s = active_session(4);
    assert_eq!(editor_size(), (EDITOR_SIDE, EDITOR_SIDE));
}

#[test]
fn window_spec_for_win32_parent() {
    let w = window_spec(&ParentWindow::Win32Hwnd(0xdead)).unwrap();
    assert_eq!(w.parent, 0xdead);
    assert_eq!((w.width, w.height), (300, 300));
    assert_eq!((w.min_width, w.min_height), (300, 300));
    assert_eq!((w.max_width, w.max_height), (300, 300));
    assert!(w.closable);
    assert!(w.focused);
    assert!(!w.maximizable);
    assert!(!w.maximized);
    assert!(!w.minimizable);
    assert!(!w.resizable);
    assert_eq!(w.background, Rgba { r: 255, g: 255, b: 255, a: 255 });
    assert!(w.hide_on_last_close);
}

#[test]
fn window_spec_for_appkit_parent() {
    let w = window_spec(&ParentWindow::AppKitNsView(42)).unwrap();
    assert_eq!(w.parent, 42);
    assert!(!w.resizable);
}

#[test]
fn window_spec_rejects_x11_parent() {
    assert_eq!(window_spec(&ParentWindow::X11Window(9)), Err(SpawnError::UnsupportedParent));
}

#[test]
fn lifecycle_spawn_activate_close_respawn() {
    let mut s: EditorSession<f32> = EditorSession::new(4);
    assert_eq!(s.phase(), EditorPhase::Unspawned);
    let w = s.spawn(&ParentWindow::AppKitNsView(77)).unwrap();
    assert_eq!(w.parent, 77);
    assert_eq!(s.phase(), EditorPhase::Spawning);
    assert!(s.activate());
    assert_eq!(s.phase(), EditorPhase::Active);
    assert!(s.close());
    assert_eq!(s.phase(), EditorPhase::Closed);
    assert!(s.spawn(&ParentWindow::AppKitNsView(78)).is_ok());
    assert!(s.activate());
    assert_eq!(s.phase(), EditorPhase::Active);
}

#[test]
fn unsupported_parent_stays_unspawned() {
    let mut s: EditorSession<f32> = EditorSession::new(4);
    assert_eq!(s.spawn(&ParentWindow::X11Window(3)), Err(SpawnError::UnsupportedParent));
    assert_eq!(s.phase(), EditorPhase::Unspawned);
    assert!(!s.activate());
    assert_eq!(s.phase(), EditorPhase::Unspawned);
}

#[test]
fn second_spawn_while_active_is_refused() {
    let mut s = active_session(4);
    assert_eq!(s.spawn(&ParentWindow::Win32Hwnd(5)), Err(SpawnError::AlreadySpawned));
    assert_eq!(s.phase(), EditorPhase::Active);
    assert!(!s.activate());
}

#[test]
fn close_when_unspawned_reports_nothing_to_close() {
    let mut s: EditorSession<f32> = EditorSession::new(4);
    assert!(!s.close());
    assert_eq!(s.phase(), EditorPhase::Unspawned);
}

#[test]
fn notifications_before_activation_are_refused() {
    let mut s: EditorSession<f32> = EditorSession::new(4);
    assert!(!s.param_value_changed("gain".to_string(), 0.5));
    assert!(s.spawn(&ParentWindow::Win32Hwnd(1)).is_ok());
    assert!(!s.set_scale_factor(2.0));
    assert!(s.next_notification().is_none());
}

#[test]
fn notifications_reach_the_editor_in_order() {
    let mut s = active_session(16);
    for i in 0..10 {
        assert!(s.param_value_changed("gain".to_string(), i as f32 / 10.0));
    }
    for i in 0..10 {
        assert_eq!(
            s.next_notification(),
            Some(Notification::ValueChanged { id: "gain".to_string(), normalized: i as f32 / 10.0 })
        );
    }
    assert_eq!(s.next_notification(), None);
}

#[test]
fn every_kind_of_notification_is_forwarded() {
    let mut s = active_session(8);
    assert!(s.param_value_changed("gain".to_string(), 0.25));
    assert!(s.param_modulation_changed("gain".to_string(), -0.125));
    assert!(s.param_values_changed());
    assert!(s.set_scale_factor(1.5));
    assert_eq!(
        s.next_notification(),
        Some(Notification::ValueChanged { id: "gain".to_string(), normalized: 0.25 })
    );
    assert_eq!(
        s.next_notification(),
        Some(Notification::ModulationChanged { id: "gain".to_string(), offset: -0.125 })
    );
    assert_eq!(s.next_notification(), Some(Notification::ValuesChanged));
    assert_eq!(s.next_notification(), Some(Notification::ScaleFactor(1.5)));
    assert_eq!(s.next_notification(), None);
}

#[test]
fn full_handoff_refuses_without_blocking() {
    let mut s = active_session(2);
    assert!(s.set_scale_factor(1.0));
    assert!(s.set_scale_factor(2.0));
    assert!(!s.set_scale_factor(3.0));
    assert_eq!(s.next_notification(), Some(Notification::ScaleFactor(1.0)));
    assert!(s.set_scale_factor(4.0));
    assert_eq!(s.next_notification(), Some(Notification::ScaleFactor(2.0)));
    assert_eq!(s.next_notification(), Some(Notification::ScaleFactor(4.0)));
}

#[test]
fn close_drops_pending_and_new_session_starts_clean() {
    let mut s = active_session(4);
    assert!(s.param_values_changed());
    assert!(s.close());
    assert_eq!(s.next_notification(), None);
    assert!(!s.param_values_changed());
    assert!(s.spawn(&ParentWindow::Win32Hwnd(2)).is_ok());
    assert!(s.activate());
    assert_eq!(s.next_notification(), None);
}
