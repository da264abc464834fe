use crate::action::Action;
use crate::enums::TabsEnum;
use crate::mode::Mode;
use crate::tui::{KeyCode, KeyEvent};
use vstd::prelude::*;

verus! {

/// The tab that the tab key turns to: the next of the three, and from the
/// last the first.
pub open spec fn next_tab(tab: TabsEnum) -> TabsEnum {
    match tab {
        TabsEnum::Discovery => TabsEnum::Packets,
        TabsEnum::Packets => TabsEnum::Ports,
        TabsEnum::Ports => TabsEnum::Discovery,
    }
}

/// What a key on the packets tab asks for while keys go to the views.
pub open spec fn packets_key_model(code: KeyCode) -> Option<Action> {
    match code {
        KeyCode::Left => Some(Action::Left),
        KeyCode::Right => Some(Action::Right),
        KeyCode::Up => Some(Action::Up),
        KeyCode::Down => Some(Action::Down),
        KeyCode::Char(c) => if c == 'd' {
            Some(Action::DumpToggle)
        } else if c == 'i' {
            Some(Action::ModeChange(Mode::Input))
        } else if c == 'c' {
            Some(Action::Clear)
        } else if c == 'e' {
            Some(Action::Export)
        } else {
            None
        },
        _ => None,
    }
}

/// What a key asks for. While keys go to the text field, only the escape
/// key asks for something: the way back. Else the tab key turns to the next
/// tab, and on the packets tab the arrows move the choice and turn the
/// bucket, `d` pauses and resumes capturing, `i` enters the text field, `c`
/// clears the filter and `e` exports.
pub open spec fn key_action_model(tab: TabsEnum, mode: Mode, key: KeyEvent) -> Option<Action> {
    match mode {
        Mode::Input => if key.code == KeyCode::Esc {
            Some(Action::ModeChange(Mode::Normal))
        } else {
            None
        },
        Mode::Normal => if key.code == KeyCode::Tab {
            Some(Action::TabChange(next_tab(tab)))
        } else if tab == TabsEnum::Packets {
            packets_key_model(key.code)
        } else {
            None
        },
    }
}

impl TabsEnum {
    /// The tab that the tab key turns to.
    pub fn next(&self) -> (r: Self)
        ensures
            r == next_tab(*self),
    {
        match self {
            TabsEnum::Discovery => TabsEnum::Packets,
            TabsEnum::Packets => TabsEnum::Ports,
            TabsEnum::Ports => TabsEnum::Discovery,
        }
    }
}

/// What a key that went down asks for, on a tab and in a mode.
pub fn key_action(tab: TabsEnum, mode: Mode, key: KeyEvent) -> (r: Option<Action>)
    ensures
        r == key_action_model(tab, mode, key),
{
    match mode {
        Mode::Input => match key.code {
            KeyCode::Esc => Some(Action::ModeChange(Mode::Normal)),
            _ => None,
        },
        Mode::Normal => match key.code {
            KeyCode::Tab => Some(Action::TabChange(tab.next())),
            KeyCode::Left => if tab == TabsEnum::Packets {
                Some(Action::Left)
            } else {
                None
            },
            KeyCode::Right => if tab == TabsEnum::Packets {
                Some(Action::Right)
            } else {
                None
            },
            KeyCode::Up => if tab == TabsEnum::Packets {
                Some(Action::Up)
            } else {
                None
            },
            KeyCode::Down => if tab == TabsEnum::Packets {
                Some(Action::Down)
            } else {
                None
            },
            KeyCode::Char(c) => if tab != TabsEnum::Packets {
                None
            } else if c == 'd' {
                Some(Action::DumpToggle)
            } else if c == 'i' {
                Some(Action::ModeChange(Mode::Input))
            } else if c == 'c' {
                Some(Action::Clear)
            } else if c == 'e' {
                Some(Action::Export)
            } else {
                None
            },
            _ => None,
        },
    }
}

/// The tab key walks through the three tabs and comes back to where it
/// began.
pub proof fn lemma_tabs_cycle(tab: TabsEnum)
    ensures
        next_tab(next_tab(next_tab(tab))) == tab,
        next_tab(tab) != tab,
{
}

} // verus!
