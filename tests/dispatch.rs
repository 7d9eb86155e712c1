use niva::codec::encode_id;
use niva::dispatch::{
    Command, ControlFlow, DispatchError, IpcEvent, Payload, PlatformEvent, Reply, Stage, Theme,
    TrayAction, WindowEventKind,
};
use niva::event_handler::EventHandler;

fn window(kind: WindowEventKind) -> PlatformEvent {
    PlatformEvent::Window(kind)
}

#[test]
fn theme_labels() {
    assert_eq!(Theme::Dark.label(), "dark");
    assert_eq!(Theme::Light.label(), "light");
    assert_eq!(Theme::Other.label(), "system");
}

#[test]
fn ipc_event_names() {
    assert_eq!(IpcEvent::WindowFocused.name(), "window.focused");
    assert_eq!(IpcEvent::WindowScaleFactorChanged.name(), "window.scaleFactorChanged");
    assert_eq!(IpcEvent::WindowThemeChanged.name(), "window.themeChanged");
    assert_eq!(IpcEvent::WindowCloseRequested.name(), "window.closeRequested");
    assert_eq!(IpcEvent::MenuClicked.name(), "menu.clicked");
    assert_eq!(IpcEvent::TrayRightClicked.name(), "tray.rightClicked");
    assert_eq!(IpcEvent::TrayLeftClicked.name(), "tray.leftClicked");
    assert_eq!(IpcEvent::TrayDoubleClicked.name(), "tray.doubleClicked");
    assert_eq!(IpcEvent::ShortcutEmit.name(), "shortcut.emit");
}

#[test]
fn new_handler_waits() {
    let h = EventHandler::new();
    assert_eq!(h.control_flow, ControlFlow::Wait);
    assert_eq!(h.stage, Stage::Idle);
}

#[test]
fn root_close_exits() {
    let mut h = EventHandler::new();
    assert_eq!(h.handle(window(WindowEventKind::CloseRequested)), Command::FindEventWindow);
    assert_eq!(h.resume(Reply::Found(0)), Command::ReadBlockClose);
    assert_eq!(h.resume(Reply::Flag(false)), Command::CloseEventWindow);
    assert_eq!(h.resume(Reply::Completed), Command::Done);
    assert_eq!(h.control_flow, ControlFlow::Exit);
}

#[test]
fn non_root_close_keeps_waiting() {
    let mut h = EventHandler::new();
    h.handle(window(WindowEventKind::CloseRequested));
    h.resume(Reply::Found(4));
    assert_eq!(h.resume(Reply::Flag(false)), Command::CloseEventWindow);
    assert_eq!(h.resume(Reply::Completed), Command::Done);
    assert_eq!(h.control_flow, ControlFlow::Wait);
}

#[test]
fn blocked_close_only_emits() {
    let mut h = EventHandler::new();
    h.handle(window(WindowEventKind::CloseRequested));
    h.resume(Reply::Found(0));
    assert_eq!(
        h.resume(Reply::Flag(true)),
        Command::Emit(IpcEvent::WindowCloseRequested, Payload::Null)
    );
    assert_eq!(h.resume(Reply::Completed), Command::Done);
    assert_eq!(h.control_flow, ControlFlow::Wait);
}

#[test]
fn destroyed_unregisters_first() {
    let mut h = EventHandler::new();
    assert_eq!(h.handle(window(WindowEventKind::Destroyed)), Command::CloseEventWindow);
    assert_eq!(h.resume(Reply::Completed), Command::FindEventWindow);
    assert_eq!(
        h.resume(Reply::Failed(DispatchError::Lookup)),
        Command::Failed(DispatchError::Lookup)
    );
    assert_eq!(h.control_flow, ControlFlow::Wait);
}

#[test]
fn focus_switches_menu_then_emits() {
    let mut h = EventHandler::new();
    assert_eq!(h.handle(window(WindowEventKind::Focused(true))), Command::FindEventWindow);
    assert_eq!(h.resume(Reply::Found(2)), Command::SwitchMenu);
    assert_eq!(
        h.resume(Reply::Completed),
        Command::Emit(IpcEvent::WindowFocused, Payload::Flag(true))
    );
    assert_eq!(h.resume(Reply::Completed), Command::Done);
}

#[test]
fn theme_and_scale_emit() {
    let mut h = EventHandler::new();
    h.handle(window(WindowEventKind::ThemeChanged(Theme::Other)));
    assert_eq!(
        h.resume(Reply::Found(1)),
        Command::Emit(IpcEvent::WindowThemeChanged, Payload::Theme(Theme::Other))
    );
    h.handle(window(WindowEventKind::ScaleFactorChanged));
    assert_eq!(
        h.resume(Reply::Found(1)),
        Command::Emit(IpcEvent::WindowScaleFactorChanged, Payload::ScaleFactor)
    );
}

#[test]
fn menu_event_routes_to_window() {
    let mut h = EventHandler::new();
    let id = encode_id(3, 42).unwrap();
    assert_eq!(h.handle(PlatformEvent::Menu(id)), Command::FindWindow(3));
    assert_eq!(
        h.resume(Reply::Found(3)),
        Command::Emit(IpcEvent::MenuClicked, Payload::Id(42))
    );
    assert_eq!(h.resume(Reply::Completed), Command::Done);
}

#[test]
fn tray_events() {
    let id = encode_id(1, 9).unwrap();
    let cases = [
        (TrayAction::RightClick, Command::Emit(IpcEvent::TrayRightClicked, Payload::Id(9))),
        (TrayAction::LeftClick, Command::Emit(IpcEvent::TrayLeftClicked, Payload::Id(9))),
        (TrayAction::DoubleClick, Command::Emit(IpcEvent::TrayDoubleClicked, Payload::Id(9))),
        (TrayAction::Other, Command::Done),
    ];
    for (action, expected) in cases {
        let mut h = EventHandler::new();
        assert_eq!(h.handle(PlatformEvent::Tray(id, action)), Command::FindWindow(1));
        assert_eq!(h.resume(Reply::Found(1)), expected);
    }
}

#[test]
fn shortcut_event_routes_to_window() {
    let mut h = EventHandler::new();
    let id = encode_id(2, 5).unwrap();
    assert_eq!(h.handle(PlatformEvent::Shortcut(id)), Command::FindWindow(2));
    assert_eq!(
        h.resume(Reply::Found(2)),
        Command::Emit(IpcEvent::ShortcutEmit, Payload::Id(5))
    );
}

#[test]
fn unknown_window_is_contained() {
    let mut h = EventHandler::new();
    let id = encode_id(9, 1).unwrap();
    assert_eq!(h.handle(PlatformEvent::Menu(id)), Command::FindWindow(9));
    assert_eq!(
        h.resume(Reply::Failed(DispatchError::Lookup)),
        Command::Failed(DispatchError::Lookup)
    );
    assert_eq!(h.control_flow, ControlFlow::Wait);
    // the next event is handled normally
    assert_eq!(h.handle(PlatformEvent::Menu(encode_id(1, 1).unwrap())), Command::FindWindow(1));
    assert_eq!(h.resume(Reply::Found(1)), Command::Emit(IpcEvent::MenuClicked, Payload::Id(1)));
}

#[test]
fn user_callback_sets_control_flow() {
    let mut h = EventHandler::new();
    assert_eq!(h.handle(PlatformEvent::User), Command::RunCallback);
    assert_eq!(h.resume(Reply::Ran(ControlFlow::Exit)), Command::Done);
    assert_eq!(h.control_flow, ControlFlow::Exit);
    // the next event resets it
    assert_eq!(h.handle(PlatformEvent::Other), Command::Done);
    assert_eq!(h.control_flow, ControlFlow::Wait);
    h.handle(PlatformEvent::User);
    assert_eq!(
        h.resume(Reply::RanFailed(ControlFlow::Poll, DispatchError::Callback)),
        Command::Failed(DispatchError::Callback)
    );
    assert_eq!(h.control_flow, ControlFlow::Poll);
}

#[test]
fn unexpected_reply_is_a_protocol_failure() {
    let mut h = EventHandler::new();
    assert_eq!(h.resume(Reply::Completed), Command::Failed(DispatchError::Protocol));
    h.handle(window(WindowEventKind::CloseRequested));
    assert_eq!(h.resume(Reply::Flag(true)), Command::Failed(DispatchError::Protocol));
    assert_eq!(h.stage, Stage::Finished);
    assert_eq!(h.control_flow, ControlFlow::Wait);
}
