use vstd::prelude::*;

verus! {

/// Whether a key went down, is held, or came up.
#[derive(Clone, Copy, Debug, PartialEq, Eq, Structural)]
pub enum KeyEventKind {
    Press,
    Repeat,
    Release,
}

/// The keys of a keyboard as the terminal names them.
#[derive(Clone, Copy, Debug, PartialEq, Eq, Structural)]
pub enum KeyCode {
    Backspace,
    Enter,
    Left,
    Right,
    Up,
    Down,
    Home,
    End,
    PageUp,
    PageDown,
    Tab,
    BackTab,
    Delete,
    Insert,
    F(u8),
    Char(char),
    Null,
    Esc,
    Other,
}

/// A key as the terminal reports it; `modifiers` holds the bits of the keys
/// held with it.
#[derive(Clone, Copy, Debug, PartialEq, Eq, Structural)]
pub struct KeyEvent {
    pub code: KeyCode,
    pub modifiers: u8,
    pub kind: KeyEventKind,
}

/// The buttons of a mouse.
#[derive(Clone, Copy, Debug, PartialEq, Eq, Structural)]
pub enum MouseButton {
    Left,
    Right,
    Middle,
}

/// What a mouse did.
#[derive(Clone, Copy, Debug, PartialEq, Eq, Structural)]
pub enum MouseEventKind {
    Down(MouseButton),
    Up(MouseButton),
    Drag(MouseButton),
    Moved,
    ScrollDown,
    ScrollUp,
    ScrollLeft,
    ScrollRight,
}

/// A movement of the mouse as the terminal reports it.
#[derive(Clone, Copy, Debug, PartialEq, Eq, Structural)]
pub struct MouseEvent {
    pub kind: MouseEventKind,
    pub column: u16,
    pub row: u16,
    pub modifiers: u8,
}

/// What the terminal reports.
#[derive(Clone, Debug, PartialEq, Eq)]
pub enum TerminalEvent {
    FocusGained,
    FocusLost,
    Key(KeyEvent),
    Mouse(MouseEvent),
    Paste(String),
    Resize(u16, u16),
}

/// What the views are driven by.
#[derive(Clone, Debug, PartialEq, Eq)]
pub enum Event {
    Init,
    Quit,
    Error,
    Closed,
    Tick,
    Render,
    FocusGained,
    FocusLost,
    Paste(String),
    Key(KeyEvent),
    Mouse(MouseEvent),
    Resize(u16, u16),
}

/// What the event loop wakes up for.
#[derive(Clone, Debug, PartialEq, Eq)]
pub enum LoopInput {
    /// The loop was cancelled.
    Cancelled,
    /// The terminal reported something.
    Terminal(TerminalEvent),
    /// Reading the terminal failed.
    TerminalError,
    /// The terminal has nothing more to report.
    TerminalClosed,
    /// The tick timer is due.
    TickDue,
    /// The render timer is due.
    RenderDue,
}

/// What the event loop does on waking up: what it sends, and whether it
/// goes on.
#[derive(Clone, Debug, PartialEq, Eq)]
pub struct LoopStep {
    pub send: Option<Event>,
    pub go_on: bool,
}

/// What the terminal is told to do.
#[derive(Clone, Copy, Debug, PartialEq, Eq, Structural)]
pub enum TerminalCommand {
    EnableRawMode,
    DisableRawMode,
    EnterAlternateScreen,
    LeaveAlternateScreen,
    HideCursor,
    ShowCursor,
    EnableMouseCapture,
    DisableMouseCapture,
    EnableBracketedPaste,
    DisableBracketedPaste,
    Flush,
}

/// What is done next while the event task is waited for after it was
/// cancelled.
#[derive(Clone, Copy, Debug, PartialEq, Eq, Structural)]
pub struct StopStep {
    /// Whether the task is to be aborted.
    pub abort: bool,
    /// Whether the wait is given up.
    pub give_up: bool,
}

/// How many sleeps of a millisecond the event task is given to stop by
/// itself.
pub const ABORT_AFTER: u32 = 50;

/// How many sleeps of a millisecond the event task is waited for at all.
pub const GIVE_UP_AFTER: u32 = 100;

/// The event that a report of the terminal becomes: a key only when it went
/// down, everything else as it is.
pub open spec fn event_model(event: TerminalEvent) -> Option<Event> {
    match event {
        TerminalEvent::Key(key) => if key.kind == KeyEventKind::Press {
            Some(Event::Key(key))
        } else {
            None
        },
        TerminalEvent::Mouse(mouse) => Some(Event::Mouse(mouse)),
        TerminalEvent::Resize(x, y) => Some(Event::Resize(x, y)),
        TerminalEvent::FocusLost => Some(Event::FocusLost),
        TerminalEvent::FocusGained => Some(Event::FocusGained),
        TerminalEvent::Paste(s) => Some(Event::Paste(s)),
    }
}

/// What the event loop does on waking up: it ends when it was cancelled;
/// else it sends on what the terminal reported, an error where reading
/// failed, a tick or a render where a timer was due.
pub open spec fn loop_step_model(input: LoopInput) -> LoopStep {
    match input {
        LoopInput::Cancelled => LoopStep { send: None, go_on: false },
        LoopInput::Terminal(event) => LoopStep { send: event_model(event), go_on: true },
        LoopInput::TerminalError => LoopStep { send: Some(Event::Error), go_on: true },
        LoopInput::TerminalClosed => LoopStep { send: None, go_on: true },
        LoopInput::TickDue => LoopStep { send: Some(Event::Tick), go_on: true },
        LoopInput::RenderDue => LoopStep { send: Some(Event::Render), go_on: true },
    }
}

/// The wait for the event task after `counter` sleeps: from the 51st on the
/// task is aborted, after the 101st the wait is given up.
pub open spec fn stop_step_model(counter: u32) -> StopStep {
    StopStep { abort: counter > ABORT_AFTER, give_up: counter > GIVE_UP_AFTER }
}

/// What the terminal is told when the interface is entered.
pub open spec fn enter_model(mouse: bool, paste: bool) -> Seq<TerminalCommand> {
    seq![
        TerminalCommand::EnableRawMode,
        TerminalCommand::EnterAlternateScreen,
        TerminalCommand::HideCursor,
    ] + (if mouse {
        seq![TerminalCommand::EnableMouseCapture]
    } else {
        Seq::empty()
    }) + (if paste {
        seq![TerminalCommand::EnableBracketedPaste]
    } else {
        Seq::empty()
    })
}

/// What the terminal is told when the interface is left: nothing where it
/// is not in raw mode.
pub open spec fn exit_model(mouse: bool, paste: bool, raw_mode: bool) -> Seq<TerminalCommand> {
    if raw_mode {
        seq![TerminalCommand::Flush] + (if paste {
            seq![TerminalCommand::DisableBracketedPaste]
        } else {
            Seq::empty()
        }) + (if mouse {
            seq![TerminalCommand::DisableMouseCapture]
        } else {
            Seq::empty()
        }) + seq![
            TerminalCommand::LeaveAlternateScreen,
            TerminalCommand::ShowCursor,
            TerminalCommand::DisableRawMode,
        ]
    } else {
        Seq::empty()
    }
}

/// What the terminal interface was asked to capture besides keys.
#[derive(Clone, Copy, Debug, PartialEq, Eq, Structural)]
pub struct Tui {
    pub mouse: bool,
    pub paste: bool,
}

impl Tui {
    /// An interface that captures neither the mouse nor pasted text.
    pub fn new() -> (r: Self)
        ensures
            r == (Tui { mouse: false, paste: false }),
    {
        Tui { mouse: false, paste: false }
    }

    /// The same interface, capturing the mouse or not.
    pub fn mouse(self, mouse: bool) -> (r: Self)
        ensures
            r == (Tui { mouse, ..self }),
    {
        Tui { mouse, paste: self.paste }
    }

    /// The same interface, capturing pasted text or not.
    pub fn paste(self, paste: bool) -> (r: Self)
        ensures
            r == (Tui { paste, ..self }),
    {
        Tui { mouse: self.mouse, paste }
    }

    /// The event that a report of the terminal becomes.
    pub fn to_event(event: TerminalEvent) -> (r: Option<Event>)
        ensures
            r == event_model(event),
    {
        match event {
            TerminalEvent::Key(key) => {
                if key.kind == KeyEventKind::Press {
                    Some(Event::Key(key))
                } else {
                    None
                }
            },
            TerminalEvent::Mouse(mouse) => Some(Event::Mouse(mouse)),
            TerminalEvent::Resize(x, y) => Some(Event::Resize(x, y)),
            TerminalEvent::FocusLost => Some(Event::FocusLost),
            TerminalEvent::FocusGained => Some(Event::FocusGained),
            TerminalEvent::Paste(s) => Some(Event::Paste(s)),
        }
    }

    /// One round of the event loop.
    pub fn start(input: LoopInput) -> (r: LoopStep)
        ensures
            r == loop_step_model(input),
    {
        match input {
            LoopInput::Cancelled => LoopStep { send: None, go_on: false },
            LoopInput::Terminal(event) => LoopStep { send: Self::to_event(event), go_on: true },
            LoopInput::TerminalError => LoopStep { send: Some(Event::Error), go_on: true },
            LoopInput::TerminalClosed => LoopStep { send: None, go_on: true },
            LoopInput::TickDue => LoopStep { send: Some(Event::Tick), go_on: true },
            LoopInput::RenderDue => LoopStep { send: Some(Event::Render), go_on: true },
        }
    }

    /// What to do after `counter` sleeps of the wait for the event task.
    pub fn stop(counter: u32) -> (r: StopStep)
        ensures
            r == stop_step_model(counter),
    {
        StopStep { abort: counter > ABORT_AFTER, give_up: counter > GIVE_UP_AFTER }
    }

    /// What the terminal is told when the interface is entered.
    pub fn enter(&self) -> (commands: Vec<TerminalCommand>)
        ensures
            commands@ == enter_model(self.mouse, self.paste),
    {
        let mut commands: Vec<TerminalCommand> = Vec::new();
        commands.push(TerminalCommand::EnableRawMode);
        commands.push(TerminalCommand::EnterAlternateScreen);
        commands.push(TerminalCommand::HideCursor);
        if self.mouse {
            commands.push(TerminalCommand::EnableMouseCapture);
        }
        if self.paste {
            commands.push(TerminalCommand::EnableBracketedPaste);
        }
        assert(commands@ =~= enter_model(self.mouse, self.paste));
        commands
    }

    /// What the terminal is told when the interface is left, given whether
    /// it is in raw mode.
    pub fn exit(&self, raw_mode: bool) -> (commands: Vec<TerminalCommand>)
        ensures
            commands@ == exit_model(self.mouse, self.paste, raw_mode),
    {
        let mut commands: Vec<TerminalCommand> = Vec::new();
        if raw_mode {
            commands.push(TerminalCommand::Flush);
            if self.paste {
                commands.push(TerminalCommand::DisableBracketedPaste);
            }
            if self.mouse {
                commands.push(TerminalCommand::DisableMouseCapture);
            }
            commands.push(TerminalCommand::LeaveAlternateScreen);
            commands.push(TerminalCommand::ShowCursor);
            commands.push(TerminalCommand::DisableRawMode);
        }
        assert(commands@ =~= exit_model(self.mouse, self.paste, raw_mode));
        commands
    }
}

} // verus!
