use vstd::prelude::*;
use crate::events::Key;

verus! {

/// What a bound key asks the session to do.
#[derive(Clone, Copy, Debug, PartialEq, Eq, Structural)]
pub enum Action {
    MoveUp,
    MoveDown,
    OpenDetail,
    CloseDetail,
    Quit,
}

/// The fixed key bindings: arrow keys or the vi keys move the selection,
/// enter opens the detail view, escape leaves it, `q` quits. Every other
/// key is unbound and inert.
pub open spec fn action_of_key(k: Key) -> Option<Action> {
    if k == Key::Up || k == Key::Char('k') {
        Some(Action::MoveUp)
    } else if k == Key::Down || k == Key::Char('j') {
        Some(Action::MoveDown)
    } else if k == Key::Enter {
        Some(Action::OpenDetail)
    } else if k == Key::Esc {
        Some(Action::CloseDetail)
    } else if k == Key::Char('q') {
        Some(Action::Quit)
    } else {
        None
    }
}

/// One labelled, key-bound action, surfaced in the legend.
#[derive(Clone, Debug)]
pub struct MenuItem {
    pub action: Action,
    pub key: Key,
    pub label: String,
}

/// The fixed, ordered registry of menu items, built once at startup and
/// never mutated. The legend enumerates it; key lookups agree with it.
pub struct MenuItems {
    pub items: Vec<MenuItem>,
}

impl MenuItems {
    /// Each registered item binds its key to its action exactly as
    /// `action_of_key` does, and every binding is registered.
    pub open spec fn wf(self) -> bool {
        &&& self.items@.len() == 7
        &&& self.items@[0].key == Key::Up && self.items@[0].action == Action::MoveUp
        &&& self.items@[1].key == Key::Char('k') && self.items@[1].action == Action::MoveUp
        &&& self.items@[2].key == Key::Down && self.items@[2].action == Action::MoveDown
        &&& self.items@[3].key == Key::Char('j') && self.items@[3].action == Action::MoveDown
        &&& self.items@[4].key == Key::Enter && self.items@[4].action == Action::OpenDetail
        &&& self.items@[5].key == Key::Esc && self.items@[5].action == Action::CloseDetail
        &&& self.items@[6].key == Key::Char('q') && self.items@[6].action == Action::Quit
    }

    /// Builds the registry with its fixed bindings and display labels.
    pub fn new() -> (m: MenuItems)
        ensures
            m.wf(),
            m.items@[0].label@ == "up: previous"@,
            m.items@[1].label@ == "k: previous"@,
            m.items@[2].label@ == "down: next"@,
            m.items@[3].label@ == "j: next"@,
            m.items@[4].label@ == "enter: open"@,
            m.items@[5].label@ == "esc: back"@,
            m.items@[6].label@ == "q: quit"@,
    {
        let mut items: Vec<MenuItem> = Vec::new();
        items.push(MenuItem { action: Action::MoveUp, key: Key::Up, label: "up: previous".to_owned() });
        items.push(MenuItem { action: Action::MoveUp, key: Key::Char('k'), label: "k: previous".to_owned() });
        items.push(MenuItem { action: Action::MoveDown, key: Key::Down, label: "down: next".to_owned() });
        items.push(MenuItem { action: Action::MoveDown, key: Key::Char('j'), label: "j: next".to_owned() });
        items.push(MenuItem { action: Action::OpenDetail, key: Key::Enter, label: "enter: open".to_owned() });
        items.push(MenuItem { action: Action::CloseDetail, key: Key::Esc, label: "esc: back".to_owned() });
        items.push(MenuItem { action: Action::Quit, key: Key::Char('q'), label: "q: quit".to_owned() });
        MenuItems { items }
    }

    /// Resolves a key to the action it is bound to, or `None` for an
    /// unbound key.
    pub fn resolve(&self, key: Key) -> (r: Option<Action>)
        ensures
            r == action_of_key(key),
    {
        match key {
            Key::Up => Some(Action::MoveUp),
            Key::Down => Some(Action::MoveDown),
            Key::Enter => Some(Action::OpenDetail),
            Key::Esc => Some(Action::CloseDetail),
            Key::Char(c) => {
                if c == 'k' {
                    Some(Action::MoveUp)
                } else if c == 'j' {
                    Some(Action::MoveDown)
                } else if c == 'q' {
                    Some(Action::Quit)
                } else {
                    None
                }
            },
        }
    }
}

} // verus!
