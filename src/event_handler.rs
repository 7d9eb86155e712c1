//! The dispatcher's state machine. `handle` starts an event and `resume`
//! takes the outcome of each command until the command is `Done` or
//! `Failed`; `control_flow` is then what the loop does next.
use vstd::prelude::*;

use crate::codec::{decode_id, split};
use crate::dispatch::{
    Command, ControlFlow, DispatchError, IpcEvent, Payload, PlatformEvent, Reply, Stage, TrayAction,
    WindowEventKind,
};

verus! {

/// The dispatch of one event in progress, and the loop's control flow.
#[derive(Debug, Clone, Copy, PartialEq, Eq, Structural)]
pub struct EventHandler {
    pub control_flow: ControlFlow,
    pub event: PlatformEvent,
    pub stage: Stage,
    /// The id of the window resolved for the event, once it is resolved.
    pub window: u32,
}

/// The same handler at another stage.
pub open spec fn at(h: EventHandler, stage: Stage) -> EventHandler {
    EventHandler { stage, ..h }
}

/// The local id carried by a menu, tray or shortcut event's composite id.
pub open spec fn local_of(id: u32) -> u32 {
    split(id as int).1 as u32
}

/// Where an event starts: control flow back to `Wait`, and the first command.
pub open spec fn begin(event: PlatformEvent) -> (EventHandler, Command) {
    let h = EventHandler { control_flow: ControlFlow::Wait, event, stage: Stage::Idle, window: 0 };
    match event {
        PlatformEvent::Window(WindowEventKind::Destroyed) => (
            at(h, Stage::ClosingDestroyed),
            Command::CloseEventWindow,
        ),
        PlatformEvent::Window(_) => (at(h, Stage::FindingEventWindow), Command::FindEventWindow),
        PlatformEvent::Menu(id) => (
            at(h, Stage::FindingWindow),
            Command::FindWindow(split(id as int).0 as u32),
        ),
        PlatformEvent::Tray(id, _) => (
            at(h, Stage::FindingWindow),
            Command::FindWindow(split(id as int).0 as u32),
        ),
        PlatformEvent::Shortcut(id) => (
            at(h, Stage::FindingWindow),
            Command::FindWindow(split(id as int).0 as u32),
        ),
        PlatformEvent::User => (at(h, Stage::Calling), Command::RunCallback),
        PlatformEvent::Other => (at(h, Stage::Finished), Command::Done),
    }
}

/// What follows once the window a window event names is resolved.
pub open spec fn window_found(kind: WindowEventKind) -> (Stage, Command) {
    match kind {
        WindowEventKind::Focused(_) => (Stage::SwitchingMenu, Command::SwitchMenu),
        WindowEventKind::ScaleFactorChanged => (
            Stage::Emitting,
            Command::Emit(IpcEvent::WindowScaleFactorChanged, Payload::ScaleFactor),
        ),
        WindowEventKind::ThemeChanged(t) => (
            Stage::Emitting,
            Command::Emit(IpcEvent::WindowThemeChanged, Payload::Theme(t)),
        ),
        WindowEventKind::CloseRequested => (Stage::ReadingFlag, Command::ReadBlockClose),
        _ => (Stage::Finished, Command::Done),
    }
}

/// What follows once the window a composite id names is resolved.
pub open spec fn id_window_found(event: PlatformEvent) -> (Stage, Command) {
    match event {
        PlatformEvent::Menu(id) => (
            Stage::Emitting,
            Command::Emit(IpcEvent::MenuClicked, Payload::Id(local_of(id))),
        ),
        PlatformEvent::Tray(id, TrayAction::RightClick) => (
            Stage::Emitting,
            Command::Emit(IpcEvent::TrayRightClicked, Payload::Id(local_of(id))),
        ),
        PlatformEvent::Tray(id, TrayAction::LeftClick) => (
            Stage::Emitting,
            Command::Emit(IpcEvent::TrayLeftClicked, Payload::Id(local_of(id))),
        ),
        PlatformEvent::Tray(id, TrayAction::DoubleClick) => (
            Stage::Emitting,
            Command::Emit(IpcEvent::TrayDoubleClicked, Payload::Id(local_of(id))),
        ),
        PlatformEvent::Tray(_, TrayAction::Other) => (Stage::Finished, Command::Done),
        PlatformEvent::Shortcut(id) => (
            Stage::Emitting,
            Command::Emit(IpcEvent::ShortcutEmit, Payload::Id(local_of(id))),
        ),
        _ => (Stage::Finished, Command::Failed(DispatchError::Protocol)),
    }
}

/// One step: the handler after a reply, and the next command. A failure
/// reported at any open stage ends the event with that failure; a reply
/// that the stage does not expect ends it as a protocol failure.
pub open spec fn transition(h: EventHandler, reply: Reply) -> (EventHandler, Command) {
    let fail = (at(h, Stage::Finished), Command::Failed(DispatchError::Protocol));
    match (h.stage, reply) {
        (Stage::Idle, _) | (Stage::Finished, _) => fail,
        (_, Reply::Failed(e)) => (at(h, Stage::Finished), Command::Failed(e)),
        (Stage::ClosingDestroyed, Reply::Completed) => (
            at(h, Stage::FindingEventWindow),
            Command::FindEventWindow,
        ),
        (Stage::FindingEventWindow, Reply::Found(w)) => match h.event {
            PlatformEvent::Window(kind) => {
                let (s, c) = window_found(kind);
                (EventHandler { stage: s, window: w, ..h }, c)
            },
            _ => fail,
        },
        (Stage::FindingWindow, Reply::Found(w)) => {
            let (s, c) = id_window_found(h.event);
            (EventHandler { stage: s, window: w, ..h }, c)
        },
        (Stage::SwitchingMenu, Reply::Completed) => match h.event {
            PlatformEvent::Window(WindowEventKind::Focused(b)) => (
                at(h, Stage::Emitting),
                Command::Emit(IpcEvent::WindowFocused, Payload::Flag(b)),
            ),
            _ => fail,
        },
        (Stage::ReadingFlag, Reply::Flag(true)) => (
            at(h, Stage::Emitting),
            Command::Emit(IpcEvent::WindowCloseRequested, Payload::Null),
        ),
        (Stage::ReadingFlag, Reply::Flag(false)) => (
            at(h, Stage::ClosingWindow),
            Command::CloseEventWindow,
        ),
        (Stage::ClosingWindow, Reply::Completed) => (
            EventHandler {
                stage: Stage::Finished,
                control_flow: if h.window == 0 {
                    ControlFlow::Exit
                } else {
                    h.control_flow
                },
                ..h
            },
            Command::Done,
        ),
        (Stage::Emitting, Reply::Completed) => (at(h, Stage::Finished), Command::Done),
        (Stage::Calling, Reply::Ran(cf)) => (
            EventHandler { stage: Stage::Finished, control_flow: cf, ..h },
            Command::Done,
        ),
        (Stage::Calling, Reply::RanFailed(cf, e)) => (
            EventHandler { stage: Stage::Finished, control_flow: cf, ..h },
            Command::Failed(e),
        ),
        _ => fail,
    }
}

/// The handler after the replies, in order, starting from `h`.
pub open spec fn run(h: EventHandler, replies: Seq<Reply>) -> EventHandler
    decreases replies.len(),
{
    if replies.len() == 0 {
        h
    } else {
        run(transition(h, replies[0]).0, replies.drop_first())
    }
}

/// The commands issued in answer to the replies, in order, starting from `h`.
pub open spec fn issued(h: EventHandler, replies: Seq<Reply>) -> Seq<Command>
    decreases replies.len(),
{
    if replies.len() == 0 {
        Seq::empty()
    } else {
        let (next, c) = transition(h, replies[0]);
        seq![c] + issued(next, replies.drop_first())
    }
}

proof fn lemma_issued_len(h: EventHandler, replies: Seq<Reply>)
    ensures
        issued(h, replies).len() == replies.len(),
    decreases replies.len(),
{
    if replies.len() > 0 {
        lemma_issued_len(transition(h, replies[0]).0, replies.drop_first());
    }
}

/// What holds at every step of a window event's dispatch: control flow only
/// leaves `Wait` by turning to `Exit`, and only when a close request closed
/// the root window.
pub open spec fn window_dispatch_inv(h: EventHandler) -> bool {
    &&& h.event is Window
    &&& h.stage != Stage::Calling
    &&& h.stage != Stage::Finished ==> h.control_flow == ControlFlow::Wait
    &&& (h.stage == Stage::ReadingFlag || h.stage == Stage::ClosingWindow) ==> h.event
        == PlatformEvent::Window(WindowEventKind::CloseRequested)
    &&& h.control_flow == ControlFlow::Wait || (h.control_flow == ControlFlow::Exit && h.window == 0
        && h.event == PlatformEvent::Window(WindowEventKind::CloseRequested))
}

proof fn lemma_window_dispatch_inv(h: EventHandler, replies: Seq<Reply>)
    requires
        window_dispatch_inv(h),
    ensures
        window_dispatch_inv(run(h, replies)),
        run(h, replies).event == h.event,
    decreases replies.len(),
{
    if replies.len() > 0 {
        lemma_window_dispatch_inv(transition(h, replies[0]).0, replies.drop_first());
    }
}

/// Once an event is finished, further replies change nothing and only
/// issue failures.
pub proof fn lemma_finished_is_final(h: EventHandler, replies: Seq<Reply>)
    requires
        h.stage == Stage::Finished,
    ensures
        run(h, replies) == h,
        forall|i: int| 0 <= i < replies.len() ==> #[trigger] issued(h, replies)[i] is Failed,
    decreases replies.len(),
{
    if replies.len() > 0 {
        let next = transition(h, replies[0]).0;
        assert(next == h);
        lemma_finished_is_final(h, replies.drop_first());
        lemma_issued_len(h, replies.drop_first());
        assert forall|i: int| 0 <= i < replies.len() implies #[trigger] issued(h, replies)[i] is Failed by {
            if i > 0 {
                assert(issued(h, replies)[i] == issued(h, replies.drop_first())[i - 1]);
            }
        }
    }
}

/// An unblocked close request on the root window (id 0) closes it and makes
/// the loop exit.
pub proof fn lemma_root_close_exits()
    ensures
        ({
            let (h0, c0) = begin(PlatformEvent::Window(WindowEventKind::CloseRequested));
            let (h1, c1) = transition(h0, Reply::Found(0));
            let (h2, c2) = transition(h1, Reply::Flag(false));
            let (h3, c3) = transition(h2, Reply::Completed);
            &&& c0 == Command::FindEventWindow
            &&& c1 == Command::ReadBlockClose
            &&& c2 == Command::CloseEventWindow
            &&& c3 == Command::Done
            &&& h3.control_flow == ControlFlow::Exit
        }),
{
}

/// Whatever the replies, a window event leaves the control flow at `Exit`
/// only when it was a close request and the window closed is the root
/// window; closing any other window never makes the loop exit.
pub proof fn lemma_only_root_close_exits(kind: WindowEventKind, replies: Seq<Reply>)
    ensures
        ({
            let h = run(begin(PlatformEvent::Window(kind)).0, replies);
            h.control_flow == ControlFlow::Exit ==> kind == WindowEventKind::CloseRequested
                && h.window == 0
        }),
{
    lemma_window_dispatch_inv(begin(PlatformEvent::Window(kind)).0, replies);
}

/// A close request on a window whose block-close flag is set only emits
/// `window.closeRequested`: whatever comes after, the window is not closed
/// and the control flow stays `Wait`.
pub proof fn lemma_blocked_close_only_emits(window: u32, rest: Seq<Reply>)
    ensures
        ({
            let (h0, c0) = begin(PlatformEvent::Window(WindowEventKind::CloseRequested));
            let (h1, c1) = transition(h0, Reply::Found(window));
            let (h2, c2) = transition(h1, Reply::Flag(true));
            &&& c2 == Command::Emit(IpcEvent::WindowCloseRequested, Payload::Null)
            &&& run(h2, rest).control_flow == ControlFlow::Wait
            &&& forall|i: int|
                0 <= i < rest.len() ==> #[trigger] issued(h2, rest)[i] != Command::CloseEventWindow
        }),
{
    let (h0, c0) = begin(PlatformEvent::Window(WindowEventKind::CloseRequested));
    let (h1, c1) = transition(h0, Reply::Found(window));
    let (h2, c2) = transition(h1, Reply::Flag(true));
    if rest.len() > 0 {
        let (h3, c3) = transition(h2, rest[0]);
        assert(h3.stage == Stage::Finished && h3.control_flow == ControlFlow::Wait);
        assert(c3 is Done || c3 is Failed);
        lemma_finished_is_final(h3, rest.drop_first());
        lemma_issued_len(h3, rest.drop_first());
        assert forall|i: int| 0 <= i < rest.len() implies #[trigger] issued(h2, rest)[i]
            != Command::CloseEventWindow by {
            if i > 0 {
                assert(issued(h2, rest)[i] == issued(h3, rest.drop_first())[i - 1]);
            }
        }
    }
}

/// A menu, tray or shortcut event whose window is unknown ends in a
/// contained lookup failure: the event is finished and the loop keeps
/// waiting. (`handle` starts the next event from that event alone.)
pub proof fn lemma_unknown_window_contained(event: PlatformEvent)
    requires
        event is Menu || event is Tray || event is Shortcut,
    ensures
        ({
            let (h0, c0) = begin(event);
            let (h1, c1) = transition(h0, Reply::Failed(DispatchError::Lookup));
            &&& c0 is FindWindow
            &&& c1 == Command::Failed(DispatchError::Lookup)
            &&& h1.stage == Stage::Finished
            &&& h1.control_flow == ControlFlow::Wait
        }),
{
}

impl EventHandler {
    /// A handler with no event in progress; the loop waits.
    pub fn new() -> (r: EventHandler)
        ensures
            r == (EventHandler {
                control_flow: ControlFlow::Wait,
                event: PlatformEvent::Other,
                stage: Stage::Idle,
                window: 0,
            }),
    {
        EventHandler {
            control_flow: ControlFlow::Wait,
            event: PlatformEvent::Other,
            stage: Stage::Idle,
            window: 0,
        }
    }

    /// Starts dispatching `event`, resetting the control flow to `Wait`,
    /// and returns the first command.
    pub fn handle(&mut self, event: PlatformEvent) -> (r: Command)
        ensures
            (*final(self), r) == begin(event),
    {
        self.control_flow = ControlFlow::Wait;
        self.event = event;
        self.window = 0;
        match event {
            PlatformEvent::Window(WindowEventKind::Destroyed) => {
                self.stage = Stage::ClosingDestroyed;
                Command::CloseEventWindow
            },
            PlatformEvent::Window(_) => {
                self.stage = Stage::FindingEventWindow;
                Command::FindEventWindow
            },
            PlatformEvent::Menu(id) | PlatformEvent::Tray(id, _) | PlatformEvent::Shortcut(id) => {
                self.stage = Stage::FindingWindow;
                Command::FindWindow(decode_id(id).0)
            },
            PlatformEvent::User => {
                self.stage = Stage::Calling;
                Command::RunCallback
            },
            PlatformEvent::Other => {
                self.stage = Stage::Finished;
                Command::Done
            },
        }
    }

    /// Takes the outcome of the last command and returns the next one.
    pub fn resume(&mut self, reply: Reply) -> (r: Command)
        ensures
            (*final(self), r) == transition(*old(self), reply),
    {
        let stage = self.stage;
        match (stage, reply) {
            (Stage::Idle, _) | (Stage::Finished, _) => self.finish(
                Command::Failed(DispatchError::Protocol),
            ),
            (_, Reply::Failed(e)) => self.finish(Command::Failed(e)),
            (Stage::ClosingDestroyed, Reply::Completed) => {
                self.stage = Stage::FindingEventWindow;
                Command::FindEventWindow
            },
            (Stage::FindingEventWindow, Reply::Found(w)) => match self.event {
                PlatformEvent::Window(kind) => {
                    let (s, c) = Self::after_window_found(kind);
                    self.stage = s;
                    self.window = w;
                    c
                },
                _ => self.finish(Command::Failed(DispatchError::Protocol)),
            },
            (Stage::FindingWindow, Reply::Found(w)) => {
                let (s, c) = Self::after_id_window_found(self.event);
                self.stage = s;
                self.window = w;
                c
            },
            (Stage::SwitchingMenu, Reply::Completed) => match self.event {
                PlatformEvent::Window(WindowEventKind::Focused(b)) => {
                    self.stage = Stage::Emitting;
                    Command::Emit(IpcEvent::WindowFocused, Payload::Flag(b))
                },
                _ => self.finish(Command::Failed(DispatchError::Protocol)),
            },
            (Stage::ReadingFlag, Reply::Flag(blocked)) => {
                if blocked {
                    self.stage = Stage::Emitting;
                    Command::Emit(IpcEvent::WindowCloseRequested, Payload::Null)
                } else {
                    self.stage = Stage::ClosingWindow;
                    Command::CloseEventWindow
                }
            },
            (Stage::ClosingWindow, Reply::Completed) => {
                if self.window == 0 {
                    self.control_flow = ControlFlow::Exit;
                }
                self.finish(Command::Done)
            },
            (Stage::Emitting, Reply::Completed) => self.finish(Command::Done),
            (Stage::Calling, Reply::Ran(cf)) => {
                self.control_flow = cf;
                self.finish(Command::Done)
            },
            (Stage::Calling, Reply::RanFailed(cf, e)) => {
                self.control_flow = cf;
                self.finish(Command::Failed(e))
            },
            _ => self.finish(Command::Failed(DispatchError::Protocol)),
        }
    }

    fn finish(&mut self, c: Command) -> (r: Command)
        ensures
            *final(self) == at(*old(self), Stage::Finished),
            r == c,
    {
        self.stage = Stage::Finished;
        c
    }

    fn after_window_found(kind: WindowEventKind) -> (r: (Stage, Command))
        ensures
            r == window_found(kind),
    {
        match kind {
            WindowEventKind::Focused(_) => (Stage::SwitchingMenu, Command::SwitchMenu),
            WindowEventKind::ScaleFactorChanged => (
                Stage::Emitting,
                Command::Emit(IpcEvent::WindowScaleFactorChanged, Payload::ScaleFactor),
            ),
            WindowEventKind::ThemeChanged(t) => (
                Stage::Emitting,
                Command::Emit(IpcEvent::WindowThemeChanged, Payload::Theme(t)),
            ),
            WindowEventKind::CloseRequested => (Stage::ReadingFlag, Command::ReadBlockClose),
            _ => (Stage::Finished, Command::Done),
        }
    }

    fn after_id_window_found(event: PlatformEvent) -> (r: (Stage, Command))
        ensures
            r == id_window_found(event),
    {
        let emit = |e: IpcEvent, id: u32| -> (r: (Stage, Command))
            ensures
                r == (Stage::Emitting, Command::Emit(e, Payload::Id(local_of(id)))),
            { (Stage::Emitting, Command::Emit(e, Payload::Id(decode_id(id).1))) };
        match event {
            PlatformEvent::Menu(id) => emit(IpcEvent::MenuClicked, id),
            PlatformEvent::Tray(id, TrayAction::RightClick) => emit(IpcEvent::TrayRightClicked, id),
            PlatformEvent::Tray(id, TrayAction::LeftClick) => emit(IpcEvent::TrayLeftClicked, id),
            PlatformEvent::Tray(id, TrayAction::DoubleClick) => emit(
                IpcEvent::TrayDoubleClicked,
                id,
            ),
            PlatformEvent::Tray(_, TrayAction::Other) => (Stage::Finished, Command::Done),
            PlatformEvent::Shortcut(id) => emit(IpcEvent::ShortcutEmit, id),
            _ => (Stage::Finished, Command::Failed(DispatchError::Protocol)),
        }
    }
}

} // verus!
