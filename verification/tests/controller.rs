use winctl::controller::{Action, Controller, WindowEvent};

fn press_toggle() -> WindowEvent {
    WindowEvent::KeyboardInput { pressed: true, is_toggle_key: true }
}

#[test]
fn resumed_creates_first_window_once() {
    let mut c = Controller::new();
    assert_eq!(c.resumed(), vec![Action::CreateWindow]);
    c.register_window(1, 800, 600);
    assert_eq!(c.resumed(), Vec::<Action>::new());
}

#[test]
fn register_stores_initial_state() {
    let mut c = Controller::new();
    c.register_window(5, 800, 600);
    let st = c.window_state(5).unwrap();
    assert_eq!(st.width, 800);
    assert_eq!(st.height, 600);
    assert!(!st.overlay.visible);
    assert_eq!(st.overlay.color.red, 1000);
    assert_eq!(st.overlay.color.green, 500);
    assert_eq!(st.overlay.color.blue, 200);
}

#[test]
fn register_existing_id_replaces_state() {
    let mut c = Controller::new();
    c.register_window(5, 800, 600);
    c.register_window(5, 100, 100);
    assert_eq!(c.window_count(), 1);
    assert_eq!(c.window_state(5).unwrap().width, 100);
}

#[test]
fn stale_window_events_are_dropped() {
    let mut c = Controller::new();
    c.register_window(1, 800, 600);
    let actions = c.window_event(99, WindowEvent::CloseRequested);
    assert!(actions.is_empty());
    assert_eq!(c.window_count(), 1);
}

#[test]
fn zero_sized_resizes_do_nothing() {
    let mut c = Controller::new();
    c.register_window(1, 800, 600);
    for _ in 0..16 {
        let actions = c.window_event(1, WindowEvent::Resized { width: 0, height: 0 });
        assert!(actions.is_empty());
    }
    let st = c.window_state(1).unwrap();
    assert_eq!((st.width, st.height), (800, 600));
}

#[test]
fn zero_width_resize_is_guarded() {
    let mut c = Controller::new();
    c.register_window(1, 800, 600);
    let actions = c.window_event(1, WindowEvent::Resized { width: 0, height: 600 });
    assert!(actions.is_empty());
    assert_eq!(c.window_state(1).unwrap().width, 800);
}

#[test]
fn nonzero_resize_resizes_and_redraws() {
    let mut c = Controller::new();
    c.register_window(1, 800, 600);
    let actions = c.window_event(1, WindowEvent::Resized { width: 1024, height: 768 });
    assert_eq!(
        actions,
        vec![
            Action::ResizeSurface { width: 1024, height: 768 },
            Action::RequestRedraw,
        ]
    );
    let st = c.window_state(1).unwrap();
    assert_eq!((st.width, st.height), (1024, 768));
}

#[test]
fn close_last_window_exits_once() {
    let mut c = Controller::new();
    c.register_window(1, 800, 600);
    let actions = c.window_event(1, WindowEvent::CloseRequested);
    assert_eq!(c.window_count(), 0);
    assert_eq!(actions, vec![Action::Exit]);
    assert_eq!(actions.iter().filter(|a| **a == Action::Exit).count(), 1);
}

#[test]
fn close_with_another_window_left_does_not_exit() {
    let mut c = Controller::new();
    c.register_window(1, 800, 600);
    c.register_window(2, 320, 200);
    let actions = c.window_event(1, WindowEvent::CloseRequested);
    assert!(actions.is_empty());
    assert_eq!(c.window_count(), 1);
    assert!(c.contains(2));
    assert!(!c.contains(1));
}

#[test]
fn redraw_requested_renders() {
    let mut c = Controller::new();
    c.register_window(1, 800, 600);
    let actions = c.window_event(1, WindowEvent::RedrawRequested);
    assert_eq!(actions, vec![Action::Render]);
}

#[test]
fn toggle_key_flips_overlay_and_redraws() {
    let mut c = Controller::new();
    c.register_window(1, 800, 600);
    let actions = c.window_event(1, press_toggle());
    assert_eq!(actions, vec![Action::RequestRedraw]);
    assert!(c.window_state(1).unwrap().overlay.visible);
}

#[test]
fn toggle_even_times_restores_visibility() {
    let mut c = Controller::new();
    c.register_window(1, 800, 600);
    for _ in 0..6 {
        c.window_event(1, press_toggle());
    }
    assert!(!c.window_state(1).unwrap().overlay.visible);
    c.window_event(1, press_toggle());
    assert!(c.window_state(1).unwrap().overlay.visible);
}

#[test]
fn key_release_and_other_keys_do_not_toggle() {
    let mut c = Controller::new();
    c.register_window(1, 800, 600);
    let a = c.window_event(1, WindowEvent::KeyboardInput { pressed: false, is_toggle_key: true });
    let b = c.window_event(1, WindowEvent::KeyboardInput { pressed: true, is_toggle_key: false });
    assert!(a.is_empty() && b.is_empty());
    assert!(!c.window_state(1).unwrap().overlay.visible);
}

#[test]
fn other_events_are_ignored() {
    let mut c = Controller::new();
    c.register_window(1, 800, 600);
    let actions = c.window_event(1, WindowEvent::Other);
    assert!(actions.is_empty());
    assert_eq!(c.window_count(), 1);
}

#[test]
fn about_to_wait_redraws_every_window_in_order() {
    let mut c = Controller::new();
    c.register_window(3, 800, 600);
    c.register_window(1, 320, 200);
    c.register_window(2, 640, 480);
    assert_eq!(c.about_to_wait(), vec![3, 1, 2]);
}

#[test]
fn overlay_repaint_requests_redraw_for_live_window_only() {
    let mut c = Controller::new();
    c.register_window(1, 800, 600);
    assert_eq!(c.overlay_response(1, true), vec![Action::RequestRedraw]);
    assert_eq!(c.overlay_response(1, false), Vec::<Action>::new());
    assert_eq!(c.overlay_response(9, true), Vec::<Action>::new());
}
