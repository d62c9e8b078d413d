use appit::event::{
    CursorPosition, DeviceId, ElementState, FloatBits, Force, Ime, KeyEvent, Modifiers,
    MouseButton, PhysicalKey, PhysicalPosition, PhysicalSize, ScrollDelta, Theme, Touch,
    TouchPhase, WindowEvent, WindowId, WindowMessage,
};
use appit::redraw::{Moment, RedrawTarget};
use appit::window::{BehaviorCall, HandleMessageResult, RunningWindow};

fn size(width: u32, height: u32) -> PhysicalSize {
    PhysicalSize { width, height }
}

fn pos(x: i32, y: i32) -> PhysicalPosition {
    PhysicalPosition { x, y }
}

fn test_window() -> RunningWindow {
    RunningWindow::new(
        WindowId(7),
        size(800, 600),
        size(820, 640),
        pos(10, 30),
        pos(10, 10),
        FloatBits(0x3FF0000000000000), // the platform reported a scale of one
        Theme::Dark,
        false,
        true,
        None,
    )
}

fn event(window: &mut RunningWindow, e: WindowEvent) -> (HandleMessageResult, Option<BehaviorCall<u32>>) {
    window.handle_message(WindowMessage::<u32>::Event(e))
}

#[test]
fn caches_match_the_platform_after_each_event() {
    let mut w = test_window();
    let (r, call) = event(
        &mut w,
        WindowEvent::Resized { inner: size(1024, 768), outer: size(1040, 800) },
    );
    assert_eq!(r, HandleMessageResult::Continue);
    assert_eq!(call, Some(BehaviorCall::Resized));
    assert_eq!(w.inner_size(), size(1024, 768));
    assert_eq!(w.outer_size(), size(1040, 800));

    let (_, call) = event(&mut w, WindowEvent::Moved { outer: pos(50, 60), inner: pos(52, 80) });
    assert_eq!(call, Some(BehaviorCall::Moved));
    assert_eq!(w.outer_position(), pos(50, 60));
    assert_eq!(w.inner_position(), pos(52, 80));

    let (_, call) = event(&mut w, WindowEvent::Focused(false));
    assert_eq!(call, Some(BehaviorCall::FocusChanged));
    assert!(!w.focused());

    let (_, call) = event(&mut w, WindowEvent::Occluded(true));
    assert_eq!(call, Some(BehaviorCall::OcclusionChanged));
    assert!(w.occluded());

    let (_, call) = event(&mut w, WindowEvent::ThemeChanged(Theme::Light));
    assert_eq!(call, Some(BehaviorCall::ThemeChanged));
    assert_eq!(w.theme(), Theme::Light);

    let (_, call) = event(&mut w, WindowEvent::ModifiersChanged(Modifiers(3)));
    assert_eq!(call, Some(BehaviorCall::ModifiersChanged));
    assert_eq!(w.modifiers(), Modifiers(3));
}

#[test]
fn unchanged_resize_invokes_no_callback() {
    let mut w = test_window();
    let (r, call) = event(
        &mut w,
        WindowEvent::Resized { inner: size(800, 600), outer: size(820, 640) },
    );
    assert_eq!(r, HandleMessageResult::Continue);
    assert_eq!(call, None);
    let (_, call) = event(&mut w, WindowEvent::Moved { outer: pos(10, 10), inner: pos(10, 30) });
    assert_eq!(call, None);
}

#[test]
fn scale_factor_updates_both_sizes_before_the_callback() {
    let mut w = test_window();
    let two = FloatBits(0x4000000000000000);
    let (_, call) = event(
        &mut w,
        WindowEvent::ScaleFactorChanged {
            scale_factor: two,
            inner: size(1600, 1200),
            outer: size(1640, 1280),
        },
    );
    assert_eq!(call, Some(BehaviorCall::ScaleFactorChanged));
    assert_eq!(w.scale(), two);
    assert_eq!(w.inner_size(), size(1600, 1200));
    assert_eq!(w.outer_size(), size(1640, 1280));
    // The callback did not resize anything further, so no resized call is owed.
    assert!(!w.scale_resize_followup(size(1600, 1200), size(1640, 1280)));
    // Had the callback requested another inner size, the worker would owe one.
    assert!(w.scale_resize_followup(size(1600, 1100), size(1640, 1280)));
}

#[test]
fn cursor_is_tracked_while_over_the_window() {
    let mut w = test_window();
    let position = CursorPosition { x: FloatBits(11), y: FloatBits(22) };
    let (_, call) = event(
        &mut w,
        WindowEvent::CursorMoved { device_id: DeviceId(1), position },
    );
    assert_eq!(call, Some(BehaviorCall::CursorMoved { device_id: DeviceId(1), position }));
    assert_eq!(w.cursor_position(), Some(position));
    let (_, call) = event(&mut w, WindowEvent::CursorLeft { device_id: DeviceId(1) });
    assert_eq!(call, Some(BehaviorCall::CursorLeft { device_id: DeviceId(1) }));
    assert_eq!(w.cursor_position(), None);
}

#[test]
fn pressed_keys_follow_press_and_release() {
    let mut w = test_window();
    let key = PhysicalKey(44);
    let press = KeyEvent {
        physical_key: key,
        state: ElementState::Pressed,
        repeat: false,
        text: None,
    };
    event(
        &mut w,
        WindowEvent::KeyboardInput { device_id: DeviceId(1), event: press.clone(), is_synthetic: false },
    );
    assert!(w.key_pressed(key));
    assert!(!w.key_pressed(PhysicalKey(45)));
    // A synthetic second press leaves the set unchanged.
    event(
        &mut w,
        WindowEvent::KeyboardInput { device_id: DeviceId(1), event: press, is_synthetic: true },
    );
    assert_eq!(w.pressed_keys(), vec![key]);
    let release = KeyEvent {
        physical_key: key,
        state: ElementState::Released,
        repeat: false,
        text: None,
    };
    event(
        &mut w,
        WindowEvent::KeyboardInput { device_id: DeviceId(1), event: release, is_synthetic: false },
    );
    assert!(!w.key_pressed(key));
    assert!(w.pressed_keys().is_empty());
}

#[test]
fn pressed_buttons_follow_press_and_release() {
    let mut w = test_window();
    event(
        &mut w,
        WindowEvent::MouseInput {
            device_id: DeviceId(1),
            state: ElementState::Pressed,
            button: MouseButton::Left,
        },
    );
    event(
        &mut w,
        WindowEvent::MouseInput {
            device_id: DeviceId(1),
            state: ElementState::Pressed,
            button: MouseButton::Other(9),
        },
    );
    assert!(w.mouse_button_pressed(MouseButton::Left));
    assert!(w.mouse_button_pressed(MouseButton::Other(9)));
    assert!(!w.mouse_button_pressed(MouseButton::Right));
    assert_eq!(w.pressed_mouse_buttons().len(), 2);
    event(
        &mut w,
        WindowEvent::MouseInput {
            device_id: DeviceId(1),
            state: ElementState::Released,
            button: MouseButton::Left,
        },
    );
    assert!(!w.mouse_button_pressed(MouseButton::Left));
    assert_eq!(w.pressed_mouse_buttons(), vec![MouseButton::Other(9)]);
}

#[test]
fn redraw_requested_pauses_message_processing() {
    let mut w = test_window();
    let (r, call) = event(&mut w, WindowEvent::RedrawRequested);
    assert_eq!(r, HandleMessageResult::RedrawRequired);
    assert_eq!(call, None);
    assert_eq!(w.next_redraw_target(), Some(RedrawTarget::Immediate));
    w.begin_redraw(size(801, 601));
    assert_eq!(w.next_redraw_target(), None);
    assert_eq!(w.inner_size(), size(801, 601));
}

#[test]
fn destroyed_ends_the_worker() {
    let mut w = test_window();
    let (r, call) = event(&mut w, WindowEvent::Destroyed);
    assert_eq!(r, HandleMessageResult::Destroyed);
    assert_eq!(call, None);
}

#[test]
fn redraw_scheduling_merges_on_the_window() {
    let mut w = test_window();
    w.redraw_at(Moment { ticks: 500 });
    assert_eq!(
        w.next_redraw_target(),
        Some(RedrawTarget::Scheduled(Moment { ticks: 500 }))
    );
    // A later request never delays the deadline.
    w.redraw_at(Moment { ticks: 900 });
    assert_eq!(
        w.next_redraw_target(),
        Some(RedrawTarget::Scheduled(Moment { ticks: 500 }))
    );
    w.redraw_in(Moment { ticks: 100 }, 100);
    assert_eq!(
        w.next_redraw_target(),
        Some(RedrawTarget::Scheduled(Moment { ticks: 200 }))
    );
    w.set_needs_redraw();
    assert_eq!(w.next_redraw_target(), Some(RedrawTarget::Immediate));
    w.redraw_at(Moment { ticks: 10 });
    assert_eq!(w.next_redraw_target(), Some(RedrawTarget::Immediate));
}

#[test]
fn close_refused_keeps_the_window_receiving() {
    let mut w = test_window();
    let (r, call) = event(&mut w, WindowEvent::CloseRequested);
    assert_eq!(r, HandleMessageResult::Continue);
    assert_eq!(call, Some(BehaviorCall::CloseRequested));
    // The behavior's close_requested returned false: the window stays open
    // and keeps receiving events.
    w.apply_close_response(false);
    assert!(!w.closing());
    let (r, call) = event(&mut w, WindowEvent::Focused(false));
    assert_eq!(r, HandleMessageResult::Continue);
    assert_eq!(call, Some(BehaviorCall::FocusChanged));
    assert!(!w.focused());
}

#[test]
fn close_allowed_marks_the_window_closing() {
    let mut w = test_window();
    event(&mut w, WindowEvent::CloseRequested);
    w.apply_close_response(true);
    assert!(w.closing());
    assert_eq!(w.next_redraw_target(), Some(RedrawTarget::Immediate));
}

#[test]
fn user_messages_pass_through_untouched() {
    let mut w = test_window();
    let (r, call) = w.handle_message(WindowMessage::User(42u32));
    assert_eq!(r, HandleMessageResult::Continue);
    assert_eq!(call, Some(BehaviorCall::User(42)));
    assert_eq!(w.inner_size(), size(800, 600));
}

#[test]
fn dropped_file_reaches_the_behavior() {
    let mut w = test_window();
    let (_, call) = event(&mut w, WindowEvent::DroppedFile("/tmp/drop.txt".to_string()));
    assert_eq!(call, Some(BehaviorCall::DroppedFile("/tmp/drop.txt".to_string())));
}

#[test]
fn pass_through_events_reach_the_behavior_without_touching_the_cache() {
    let mut w = test_window();
    let before_inner = w.inner_size();

    let (_, call) = event(&mut w, WindowEvent::ReceivedCharacter('q'));
    assert_eq!(call, Some(BehaviorCall::ReceivedCharacter('q')));

    let (_, call) = event(&mut w, WindowEvent::Ime(Ime::Commit("ä".to_string())));
    assert_eq!(call, Some(BehaviorCall::Ime(Ime::Commit("ä".to_string()))));

    let delta = ScrollDelta::Lines { x: FloatBits(0), y: FloatBits(1) };
    let (_, call) = event(
        &mut w,
        WindowEvent::MouseWheel { device_id: DeviceId(2), delta, phase: TouchPhase::Moved },
    );
    assert_eq!(
        call,
        Some(BehaviorCall::MouseWheel { device_id: DeviceId(2), delta, phase: TouchPhase::Moved })
    );

    let touch = Touch {
        device_id: DeviceId(2),
        phase: TouchPhase::Started,
        location: CursorPosition { x: FloatBits(1), y: FloatBits(2) },
        force: Some(Force::Normalized(FloatBits(3))),
        id: 9,
    };
    let (_, call) = event(&mut w, WindowEvent::Touch(touch));
    assert_eq!(call, Some(BehaviorCall::Touch(touch)));

    let (_, call) = event(
        &mut w,
        WindowEvent::PinchGesture {
            device_id: DeviceId(2),
            delta: FloatBits(7),
            phase: TouchPhase::Ended,
        },
    );
    assert_eq!(
        call,
        Some(BehaviorCall::PinchGesture {
            device_id: DeviceId(2),
            delta: FloatBits(7),
            phase: TouchPhase::Ended,
        })
    );

    let (_, call) = event(
        &mut w,
        WindowEvent::AxisMotion { device_id: DeviceId(2), axis: 1, value: FloatBits(11) },
    );
    assert_eq!(
        call,
        Some(BehaviorCall::AxisMotion { device_id: DeviceId(2), axis: 1, value: FloatBits(11) })
    );

    let (_, call) = event(
        &mut w,
        WindowEvent::ActivationTokenDone { serial: 4, token: "t".to_string() },
    );
    assert_eq!(call, None);

    // None of these events carries an attribute, so the cache is untouched.
    assert_eq!(w.inner_size(), before_inner);
    assert_eq!(w.cursor_position(), None);
    assert!(w.pressed_keys().is_empty());
}
