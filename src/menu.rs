use crate::event::Key;
use vstd::prelude::*;

verus! {

/// The screens that the menu offers, in display order.
#[derive(Clone, Copy, Debug, PartialEq, Eq, Structural)]
pub enum MenuItem {
    Home,
    Pets,
}

/// Position of a screen in the menu bar.
pub open spec fn menu_index(m: MenuItem) -> nat {
    match m {
        MenuItem::Home => 0,
        MenuItem::Pets => 1,
    }
}

/// The screen that a key navigates to, if the key is a navigation key.
pub open spec fn nav_target(k: Key) -> Option<MenuItem> {
    match k {
        Key::Char('h') => Some(MenuItem::Home),
        Key::Char('p') => Some(MenuItem::Pets),
        _ => None,
    }
}

impl MenuItem {
    /// Position of this screen in the menu bar (the highlighted tab).
    pub fn index(self) -> (r: usize)
        ensures
            r as nat == menu_index(self),
    {
        match self {
            MenuItem::Home => 0,
            MenuItem::Pets => 1,
        }
    }

    /// The screen that `k` navigates to, or `None` for a key that is not a
    /// navigation key.
    pub fn for_key(k: Key) -> (r: Option<MenuItem>)
        ensures
            r == nav_target(k),
    {
        match k {
            Key::Char(c) => {
                if c == 'h' {
                    Some(MenuItem::Home)
                } else if c == 'p' {
                    Some(MenuItem::Pets)
                } else {
                    None
                }
            },
            Key::Other => None,
        }
    }
}

impl From<MenuItem> for usize {
    fn from(m: MenuItem) -> (r: usize)
        ensures
            r as nat == menu_index(m),
    {
        m.index()
    }
}

impl vstd::std_specs::convert::FromSpecImpl<MenuItem> for usize {
    open spec fn obeys_from_spec() -> bool {
        true
    }

    open spec fn from_spec(m: MenuItem) -> usize {
        menu_index(m) as usize
    }
}

} // verus!
