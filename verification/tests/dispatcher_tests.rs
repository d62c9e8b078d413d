use appit::attributes::WindowAttributes;
use appit::dispatcher::{
    worker_termination_message, DispatchStep, EventLoopMessage, PendingApp, RequestId, RunningApp,
    WorkerOutcome,
};
use appit::event::{Theme, WindowId};
use appit::mailbox::Mailbox;
use appit::Message;

struct Chat;

impl Message for Chat {
    type Window = u32;
    type Response = String;
    type Error = String;
}

fn running_with(ids: &[u64]) -> RunningApp<Chat> {
    let mut app: RunningApp<Chat> = RunningApp::new();
    for id in ids {
        app.windows.open(WindowId(*id), Mailbox::new(8));
    }
    app
}

#[test]
fn closing_the_last_window_exits_cleanly() {
    let mut app = running_with(&[5]);
    let step = app.user_event(EventLoopMessage::CloseWindow(WindowId(5)));
    assert!(matches!(step, DispatchStep::Exit { code: 0 }));
}

#[test]
fn closing_one_of_two_windows_continues() {
    let mut app = running_with(&[5, 6]);
    let step = app.user_event(EventLoopMessage::CloseWindow(WindowId(5)));
    assert!(matches!(step, DispatchStep::Continue));
    assert!(app.windows.get(WindowId(6)).is_some());
}

#[test]
fn a_panicked_window_exits_with_a_distinguished_status() {
    let mut app = running_with(&[5]);
    let step = app.user_event(EventLoopMessage::WindowPanic(WindowId(5)));
    assert!(matches!(step, DispatchStep::Exit { code: 1 }));
}

#[test]
fn a_panicked_window_leaves_other_windows_running() {
    let mut app = running_with(&[5, 6]);
    let step = app.user_event(EventLoopMessage::WindowPanic(WindowId(5)));
    assert!(matches!(step, DispatchStep::Continue));
    assert!(app.windows.get(WindowId(5)).is_none());
    assert!(app.windows.get(WindowId(6)).is_some());
}

#[test]
fn user_messages_answer_on_their_own_channel() {
    let mut app = running_with(&[5]);
    let step = app.user_event(EventLoopMessage::User {
        message: Chat,
        request: RequestId(41),
    });
    match step {
        DispatchStep::RespondToUser { request, .. } => assert_eq!(request, RequestId(41)),
        _ => panic!("expected a user response step"),
    }
    let step = app.user_event(EventLoopMessage::User {
        message: Chat,
        request: RequestId(42),
    });
    match step {
        DispatchStep::RespondToUser { request, .. } => assert_eq!(request, RequestId(42)),
        _ => panic!("expected a user response step"),
    }
}

#[test]
fn open_requests_become_create_window_actions() {
    let mut app = running_with(&[]);
    let mut attrs = WindowAttributes::default();
    attrs.title = "first".to_string();
    let step = app.user_event(EventLoopMessage::OpenWindow {
        attrs,
        request: RequestId(1),
    });
    match step {
        DispatchStep::CreateWindow { attrs, request } => {
            assert_eq!(attrs.title, "first");
            assert_eq!(request, RequestId(1));
        }
        _ => panic!("expected a create-window step"),
    }
}

#[test]
fn guards_route_through_the_dispatcher() {
    let mut app = running_with(&[]);
    assert!(matches!(
        app.user_event(EventLoopMessage::PreventShutdown),
        DispatchStep::Continue
    ));
    assert!(matches!(
        app.user_event(EventLoopMessage::PreventShutdown),
        DispatchStep::Continue
    ));
    assert!(matches!(
        app.user_event(EventLoopMessage::AllowShutdown),
        DispatchStep::Continue
    ));
    assert!(matches!(
        app.user_event(EventLoopMessage::AllowShutdown),
        DispatchStep::Exit { code: 0 }
    ));
}

#[test]
fn errors_reach_the_error_handler() {
    let mut app = running_with(&[5]);
    let step = app.user_event(EventLoopMessage::Error("boom".to_string()));
    match step {
        DispatchStep::HandleError(e) => assert_eq!(e, "boom"),
        _ => panic!("expected an error step"),
    }
}

#[test]
fn theme_changes_fan_out() {
    let mut app = running_with(&[5, 6]);
    let step = app.user_event(EventLoopMessage::ThemeChanged(Theme::Light));
    assert!(matches!(step, DispatchStep::Continue));
    assert_eq!(app.windows.get(WindowId(5)).unwrap().mailbox.len(), 1);
    assert_eq!(app.windows.get(WindowId(6)).unwrap().mailbox.len(), 1);
}

#[test]
fn pending_windows_flush_in_order_on_startup() {
    let mut pending = PendingApp::new();
    let mut first = WindowAttributes::default();
    first.title = "first".to_string();
    let mut second = WindowAttributes::default();
    second.title = "second".to_string();
    pending.open(first, RequestId(1));
    pending.open(second, RequestId(2));
    let (mut app, buffered) = pending.run::<Chat>();
    let steps = app.on_init(buffered);
    assert_eq!(steps.len(), 2);
    match &steps[0] {
        DispatchStep::CreateWindow { attrs, request } => {
            assert_eq!(attrs.title, "first");
            assert_eq!(*request, RequestId(1));
        }
        _ => panic!("expected a create-window step"),
    }
    match &steps[1] {
        DispatchStep::CreateWindow { attrs, request } => {
            assert_eq!(attrs.title, "second");
            assert_eq!(*request, RequestId(2));
        }
        _ => panic!("expected a create-window step"),
    }
}

#[test]
fn worker_outcomes_map_to_their_signals() {
    let closed = worker_termination_message::<Chat>(WindowId(3), WorkerOutcome::Closed);
    assert!(matches!(
        closed,
        EventLoopMessage::CloseWindow(WindowId(3))
    ));
    let panicked = worker_termination_message::<Chat>(WindowId(3), WorkerOutcome::Panicked);
    assert!(matches!(
        panicked,
        EventLoopMessage::WindowPanic(WindowId(3))
    ));
    let failed = worker_termination_message::<Chat>(
        WindowId(3),
        WorkerOutcome::InitFailed("no adapter".to_string()),
    );
    match failed {
        EventLoopMessage::Error(e) => assert_eq!(e, "no adapter"),
        _ => panic!("expected an error message"),
    }
}

#[test]
fn default_attributes_match_the_platform_defaults() {
    let attrs = WindowAttributes::default();
    assert_eq!(attrs.title, "winit window");
    assert!(attrs.resizable);
    assert!(attrs.visible);
    assert!(attrs.decorations);
    assert!(attrs.active);
    assert!(attrs.delay_visible);
    assert!(!attrs.maximized);
    assert!(!attrs.transparent);
    assert!(!attrs.content_protected);
    assert!(attrs.inner_size.is_none());
    assert!(attrs.fullscreen.is_none());
    assert!(attrs.app_name.is_none());
    assert_eq!(attrs.enabled_buttons.0, appit::attributes::WINDOW_BUTTONS_ALL);
    assert_eq!(
        appit::attributes::WINDOW_BUTTONS_ALL,
        appit::attributes::WINDOW_BUTTON_CLOSE
            | appit::attributes::WINDOW_BUTTON_MINIMIZE
            | appit::attributes::WINDOW_BUTTON_MAXIMIZE
    );
}

#[test]
fn delayed_visibility_is_planned_at_open() {
    let mut attrs = WindowAttributes::default();
    assert!(attrs.delay_visible && attrs.visible);
    let plan = attrs.prepare_for_open();
    assert_eq!(plan, Some(true));
    assert!(!attrs.visible);

    let mut invisible = WindowAttributes::default();
    invisible.visible = false;
    assert_eq!(invisible.prepare_for_open(), None);

    let mut eager = WindowAttributes::default();
    eager.delay_visible = false;
    assert_eq!(eager.prepare_for_open(), None);
    assert!(eager.visible);
}
