//! The event dispatcher: one platform event at a time, it decides which
//! window to resolve, what to emit to it and how the event loop's control
//! flow changes. Every effect (registry lookups, closing a window, IPC
//! sends, running a deferred callback) is carried out by the caller, which
//! reports the outcome back; the dispatcher only decides.
use vstd::prelude::*;

verus! {

/// The platform's theme, as far as the dispatcher distinguishes it.
#[derive(Debug, Clone, Copy, PartialEq, Eq, Structural)]
pub enum Theme {
    Dark,
    Light,
    /// Any other theme value the platform reports.
    Other,
}

/// The text sent to the frontend for a theme.
pub open spec fn theme_label(t: Theme) -> Seq<char> {
    match t {
        Theme::Dark => "dark"@,
        Theme::Light => "light"@,
        Theme::Other => "system"@,
    }
}

impl Theme {
    /// `"dark"`, `"light"`, and `"system"` for every other theme.
    pub fn label(&self) -> (r: &'static str)
        ensures
            r@ == theme_label(*self),
            *self != Theme::Dark && *self != Theme::Light ==> r@ == "system"@,
    {
        match self {
            Theme::Dark => "dark",
            Theme::Light => "light",
            Theme::Other => "system",
        }
    }
}

/// How a tray icon was clicked.
#[derive(Debug, Clone, Copy, PartialEq, Eq, Structural)]
pub enum TrayAction {
    RightClick,
    LeftClick,
    DoubleClick,
    /// Any other tray interaction; it is ignored.
    Other,
}

/// What happened to a window.
#[derive(Debug, Clone, Copy, PartialEq, Eq, Structural)]
pub enum WindowEventKind {
    Destroyed,
    Focused(bool),
    /// The scale factor and inner size travel with the raw event: the
    /// caller fills them into the payload.
    ScaleFactorChanged,
    ThemeChanged(Theme),
    CloseRequested,
    Other,
}

/// A platform event. Menu, tray and shortcut events carry a composite id;
/// a window event refers to the window the raw event names.
#[derive(Debug, Clone, Copy, PartialEq, Eq, Structural)]
pub enum PlatformEvent {
    Window(WindowEventKind),
    Menu(u32),
    Tray(u32, TrayAction),
    Shortcut(u32),
    /// A deferred callback submitted from outside the loop.
    User,
    Other,
}

/// Whether the event loop blocks, polls or terminates after this cycle.
#[derive(Debug, Clone, Copy, PartialEq, Eq, Structural)]
pub enum ControlFlow {
    Wait,
    Poll,
    Exit,
}

/// The IPC events the dispatcher sends to a window.
#[derive(Debug, Clone, Copy, PartialEq, Eq, Structural)]
pub enum IpcEvent {
    WindowFocused,
    WindowScaleFactorChanged,
    WindowThemeChanged,
    WindowCloseRequested,
    MenuClicked,
    TrayRightClicked,
    TrayLeftClicked,
    TrayDoubleClicked,
    ShortcutEmit,
}

/// The name under which an IPC event reaches the frontend.
pub open spec fn ipc_name(e: IpcEvent) -> Seq<char> {
    match e {
        IpcEvent::WindowFocused => "window.focused"@,
        IpcEvent::WindowScaleFactorChanged => "window.scaleFactorChanged"@,
        IpcEvent::WindowThemeChanged => "window.themeChanged"@,
        IpcEvent::WindowCloseRequested => "window.closeRequested"@,
        IpcEvent::MenuClicked => "menu.clicked"@,
        IpcEvent::TrayRightClicked => "tray.rightClicked"@,
        IpcEvent::TrayLeftClicked => "tray.leftClicked"@,
        IpcEvent::TrayDoubleClicked => "tray.doubleClicked"@,
        IpcEvent::ShortcutEmit => "shortcut.emit"@,
    }
}

impl IpcEvent {
    pub fn name(&self) -> (r: &'static str)
        ensures
            r@ == ipc_name(*self),
    {
        match self {
            IpcEvent::WindowFocused => "window.focused",
            IpcEvent::WindowScaleFactorChanged => "window.scaleFactorChanged",
            IpcEvent::WindowThemeChanged => "window.themeChanged",
            IpcEvent::WindowCloseRequested => "window.closeRequested",
            IpcEvent::MenuClicked => "menu.clicked",
            IpcEvent::TrayRightClicked => "tray.rightClicked",
            IpcEvent::TrayLeftClicked => "tray.leftClicked",
            IpcEvent::TrayDoubleClicked => "tray.doubleClicked",
            IpcEvent::ShortcutEmit => "shortcut.emit",
        }
    }
}

/// The payload of an IPC event.
#[derive(Debug, Clone, Copy, PartialEq, Eq, Structural)]
pub enum Payload {
    Null,
    Flag(bool),
    /// A local id decoded from a composite id.
    Id(u32),
    /// The theme, sent as its label.
    Theme(Theme),
    /// `{scaleFactor, newInnerSize}` of the raw event.
    ScaleFactor,
}

/// A contained failure: the event is dropped and the loop goes on.
#[derive(Debug, Clone, Copy, PartialEq, Eq, Structural)]
pub enum DispatchError {
    /// No window has the id looked up.
    Lookup,
    /// Closing a window or reaching the registry failed.
    Registry,
    /// The IPC event could not be delivered or serialized.
    Delivery,
    /// The window's state lock was poisoned.
    State,
    /// The deferred callback reported a failure.
    Callback,
    /// A reply came that the current step does not expect.
    Protocol,
}

/// What the caller must do next for the event in progress.
#[derive(Debug, Clone, Copy, PartialEq, Eq, Structural)]
pub enum Command {
    /// Unregister the window the raw window event names.
    CloseEventWindow,
    /// Resolve the window the raw window event names; reply with its id.
    FindEventWindow,
    /// Resolve the window with this id; reply with its id.
    FindWindow(u32),
    /// Switch the menu context to the resolved window where the platform
    /// needs it (a no-op elsewhere); reply `Completed`.
    SwitchMenu,
    /// Read the resolved window's block-close flag; reply with it.
    ReadBlockClose,
    /// Send this event to the resolved window; reply `Completed`.
    Emit(IpcEvent, Payload),
    /// Run the deferred callback with the current control flow; reply with
    /// the control flow it left.
    RunCallback,
    /// The event is handled.
    Done,
    /// The event failed; log it and go on.
    Failed(DispatchError),
}

/// The outcome of a command, reported by the caller.
#[derive(Debug, Clone, Copy, PartialEq, Eq, Structural)]
pub enum Reply {
    Completed,
    Found(u32),
    Flag(bool),
    Ran(ControlFlow),
    RanFailed(ControlFlow, DispatchError),
    Failed(DispatchError),
}

/// Where the dispatch of the current event stands.
#[derive(Debug, Clone, Copy, PartialEq, Eq, Structural)]
pub enum Stage {
    Idle,
    ClosingDestroyed,
    FindingEventWindow,
    FindingWindow,
    SwitchingMenu,
    ReadingFlag,
    ClosingWindow,
    Emitting,
    Calling,
    Finished,
}

} // verus!
