use netscanner::tui::{
    Event, KeyCode, KeyEvent, KeyEventKind, LoopInput, LoopStep, MouseButton, MouseEvent,
    MouseEventKind, StopStep, TerminalCommand, TerminalEvent, Tui,
};

fn key(code: KeyCode, kind: KeyEventKind) -> KeyEvent {
    KeyEvent { code, modifiers: 0, kind }
}

#[test]
fn only_keys_that_went_down_are_sent_on() {
    let down = key(KeyCode::Char('d'), KeyEventKind::Press);
    assert_eq!(Tui::to_event(TerminalEvent::Key(down)), Some(Event::Key(down)));
    assert_eq!(
        Tui::to_event(TerminalEvent::Key(key(KeyCode::Char('d'), KeyEventKind::Release))),
        None
    );
    assert_eq!(
        Tui::to_event(TerminalEvent::Key(key(KeyCode::Enter, KeyEventKind::Repeat))),
        None
    );
}

#[test]
fn other_reports_are_sent_on_as_they_are() {
    let mouse = MouseEvent {
        kind: MouseEventKind::Down(MouseButton::Left),
        column: 3,
        row: 9,
        modifiers: 1,
    };
    assert_eq!(Tui::to_event(TerminalEvent::Mouse(mouse)), Some(Event::Mouse(mouse)));
    assert_eq!(Tui::to_event(TerminalEvent::Resize(80, 24)), Some(Event::Resize(80, 24)));
    assert_eq!(Tui::to_event(TerminalEvent::FocusLost), Some(Event::FocusLost));
    assert_eq!(Tui::to_event(TerminalEvent::FocusGained), Some(Event::FocusGained));
    assert_eq!(
        Tui::to_event(TerminalEvent::Paste("10.0.0.5".to_string())),
        Some(Event::Paste("10.0.0.5".to_string()))
    );
}

#[test]
fn loop_sends_ticks_renders_and_errors() {
    assert_eq!(
        Tui::start(LoopInput::TickDue),
        LoopStep { send: Some(Event::Tick), go_on: true }
    );
    assert_eq!(
        Tui::start(LoopInput::RenderDue),
        LoopStep { send: Some(Event::Render), go_on: true }
    );
    assert_eq!(
        Tui::start(LoopInput::TerminalError),
        LoopStep { send: Some(Event::Error), go_on: true }
    );
    assert_eq!(Tui::start(LoopInput::TerminalClosed), LoopStep { send: None, go_on: true });
    assert_eq!(
        Tui::start(LoopInput::Terminal(TerminalEvent::Resize(1, 2))),
        LoopStep { send: Some(Event::Resize(1, 2)), go_on: true }
    );
    assert_eq!(
        Tui::start(LoopInput::Terminal(TerminalEvent::Key(key(
            KeyCode::Esc,
            KeyEventKind::Release
        )))),
        LoopStep { send: None, go_on: true }
    );
}

#[test]
fn loop_ends_when_it_is_cancelled() {
    assert_eq!(Tui::start(LoopInput::Cancelled), LoopStep { send: None, go_on: false });
}

#[test]
fn event_task_is_aborted_and_then_given_up() {
    assert_eq!(Tui::stop(1), StopStep { abort: false, give_up: false });
    assert_eq!(Tui::stop(50), StopStep { abort: false, give_up: false });
    assert_eq!(Tui::stop(51), StopStep { abort: true, give_up: false });
    assert_eq!(Tui::stop(100), StopStep { abort: true, give_up: false });
    assert_eq!(Tui::stop(101), StopStep { abort: true, give_up: true });
}

#[test]
fn entering_captures_what_was_asked_for() {
    let plain = Tui::new();
    assert_eq!(plain, Tui { mouse: false, paste: false });
    assert_eq!(
        plain.enter(),
        vec![
            TerminalCommand::EnableRawMode,
            TerminalCommand::EnterAlternateScreen,
            TerminalCommand::HideCursor,
        ]
    );
    assert_eq!(
        Tui::new().mouse(true).paste(true).enter(),
        vec![
            TerminalCommand::EnableRawMode,
            TerminalCommand::EnterAlternateScreen,
            TerminalCommand::HideCursor,
            TerminalCommand::EnableMouseCapture,
            TerminalCommand::EnableBracketedPaste,
        ]
    );
    assert_eq!(Tui::new().mouse(true).mouse(false), Tui::new());
}

#[test]
fn leaving_undoes_it_in_reverse() {
    assert_eq!(Tui::new().mouse(true).paste(true).exit(false), vec![]);
    assert_eq!(
        Tui::new().exit(true),
        vec![
            TerminalCommand::Flush,
            TerminalCommand::LeaveAlternateScreen,
            TerminalCommand::ShowCursor,
            TerminalCommand::DisableRawMode,
        ]
    );
    assert_eq!(
        Tui::new().mouse(true).paste(true).exit(true),
        vec![
            TerminalCommand::Flush,
            TerminalCommand::DisableBracketedPaste,
            TerminalCommand::DisableMouseCapture,
            TerminalCommand::LeaveAlternateScreen,
            TerminalCommand::ShowCursor,
            TerminalCommand::DisableRawMode,
        ]
    );
}
