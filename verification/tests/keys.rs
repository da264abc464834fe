use netscanner::action::Action;
use netscanner::enums::TabsEnum;
use netscanner::keys::key_action;
use netscanner::mode::Mode;
use netscanner::tui::{KeyCode, KeyEvent, KeyEventKind};

fn press(code: KeyCode) -> KeyEvent {
    KeyEvent { code, modifiers: 0, kind: KeyEventKind::Press }
}

#[test]
fn tab_key_walks_through_the_tabs() {
    assert_eq!(TabsEnum::Discovery.next(), TabsEnum::Packets);
    assert_eq!(TabsEnum::Packets.next(), TabsEnum::Ports);
    assert_eq!(TabsEnum::Ports.next(), TabsEnum::Discovery);
    for tab in [TabsEnum::Discovery, TabsEnum::Packets, TabsEnum::Ports] {
        assert_eq!(
            key_action(tab, Mode::Normal, press(KeyCode::Tab)),
            Some(Action::TabChange(tab.next()))
        );
        assert_eq!(tab.next().next().next(), tab);
    }
}

#[test]
fn keys_of_the_packets_tab_ask_for_their_actions() {
    let on_packets = |code| key_action(TabsEnum::Packets, Mode::Normal, press(code));
    assert_eq!(on_packets(KeyCode::Left), Some(Action::Left));
    assert_eq!(on_packets(KeyCode::Right), Some(Action::Right));
    assert_eq!(on_packets(KeyCode::Up), Some(Action::Up));
    assert_eq!(on_packets(KeyCode::Down), Some(Action::Down));
    assert_eq!(on_packets(KeyCode::Char('d')), Some(Action::DumpToggle));
    assert_eq!(on_packets(KeyCode::Char('i')), Some(Action::ModeChange(Mode::Input)));
    assert_eq!(on_packets(KeyCode::Char('c')), Some(Action::Clear));
    assert_eq!(on_packets(KeyCode::Char('e')), Some(Action::Export));
    assert_eq!(on_packets(KeyCode::Char('x')), None);
    assert_eq!(on_packets(KeyCode::Char('D')), None);
    assert_eq!(on_packets(KeyCode::Enter), None);
    assert_eq!(on_packets(KeyCode::Esc), None);
    assert_eq!(on_packets(KeyCode::F(1)), None);
}

#[test]
fn keys_of_the_packets_tab_do_nothing_on_other_tabs() {
    for tab in [TabsEnum::Discovery, TabsEnum::Ports] {
        for code in [
            KeyCode::Left,
            KeyCode::Right,
            KeyCode::Up,
            KeyCode::Down,
            KeyCode::Char('d'),
            KeyCode::Char('i'),
            KeyCode::Char('c'),
            KeyCode::Char('e'),
        ] {
            assert_eq!(key_action(tab, Mode::Normal, press(code)), None);
        }
    }
}

#[test]
fn only_escape_leaves_the_text_field() {
    for tab in [TabsEnum::Discovery, TabsEnum::Packets, TabsEnum::Ports] {
        assert_eq!(
            key_action(tab, Mode::Input, press(KeyCode::Esc)),
            Some(Action::ModeChange(Mode::Normal))
        );
        for code in [KeyCode::Tab, KeyCode::Char('d'), KeyCode::Char('e'), KeyCode::Enter, KeyCode::Left] {
            assert_eq!(key_action(tab, Mode::Input, press(code)), None);
        }
    }
}
