//! The hub: a list of what the device can do, walked with `Up` and `Down`.

use vstd::prelude::*;

use crate::action::Action;
use crate::bip39::SeedLength;

verus! {

/// An entry on the menu.
#[derive(Clone, Copy, PartialEq, Eq, Debug, Structural)]
pub enum MenuItem {
    GenerateMnemonic(SeedLength),
    About,
}

impl MenuItem {
    /// The entries, top to bottom.
    pub fn all() -> (items: [Self; 3])
        ensures
            items@ == menu_items(),
    {
        [Self::GenerateMnemonic(SeedLength::Words12), Self::GenerateMnemonic(SeedLength::Words24), Self::About]
    }
}

/// The entries of the menu, top to bottom.
pub open spec fn menu_items() -> Seq<MenuItem> {
    seq![
        MenuItem::GenerateMnemonic(SeedLength::Words12),
        MenuItem::GenerateMnemonic(SeedLength::Words24),
        MenuItem::About,
    ]
}

/// Entries on the menu.
pub const MENU_LEN: usize = 3;

/// What an action did to the menu, for the application to act on.
#[derive(Clone, Copy, PartialEq, Eq, Debug, Structural)]
pub enum MenuEvent {
    Ignored,
    Moved,
    Chose(MenuItem),
    Dismissed,
}

/// The entry at position `index` of the menu.
pub open spec fn menu_item(index: int) -> MenuItem {
    menu_items()[index]
}

/// Where the cursor goes on `action` from `cursor`, and what the menu reports:
/// `Up` and `Down` move it, wrapping at either end; `Select` chooses the entry
/// under it; `Back` leaves; nothing else does anything.
pub open spec fn menu_step(cursor: int, action: Action) -> (int, MenuEvent) {
    match action {
        Action::Up => ((cursor + MENU_LEN - 1) % (MENU_LEN as int), MenuEvent::Moved),
        Action::Down => ((cursor + 1) % (MENU_LEN as int), MenuEvent::Moved),
        Action::Select => (cursor, MenuEvent::Chose(menu_item(cursor))),
        Action::Back => (cursor, MenuEvent::Dismissed),
        _ => (cursor, MenuEvent::Ignored),
    }
}

#[derive(Clone, Copy)]
pub struct Menu {
    cursor: usize,
}

impl View for Menu {
    type V = int;

    /// The position of the cursor, from the top.
    closed spec fn view(&self) -> int {
        self.cursor as int
    }
}

impl Default for Menu {
    fn default() -> (menu: Self)
        ensures
            menu@ == 0,
    {
        Self::new()
    }
}

impl Menu {
    #[verifier::type_invariant]
    spec fn on_an_entry(self) -> bool {
        self.cursor < MENU_LEN
    }

    pub fn new() -> (menu: Self)
        ensures
            menu@ == 0,
    {
        Self { cursor: 0 }
    }

    /// The entry under the cursor.
    pub fn selected(&self) -> (item: MenuItem)
        ensures
            item == menu_item(self@),
            0 <= self@ < MENU_LEN,
    {
        proof {
            use_type_invariant(self);
        }
        let items = MenuItem::all();
        items[self.cursor]
    }

    /// Applies an action.
    pub fn press(&mut self, action: Action) -> (event: MenuEvent)
        ensures
            final(self)@ == menu_step(old(self)@, action).0,
            event == menu_step(old(self)@, action).1,
    {
        proof {
            use_type_invariant(&*self);
        }
        match action {
            Action::Up => {
                *self = Menu { cursor: (self.cursor + MENU_LEN - 1) % MENU_LEN };
                MenuEvent::Moved
            },
            Action::Down => {
                *self = Menu { cursor: (self.cursor + 1) % MENU_LEN };
                MenuEvent::Moved
            },
            Action::Select => MenuEvent::Chose(self.selected()),
            Action::Back => MenuEvent::Dismissed,
            _ => MenuEvent::Ignored,
        }
    }
}

/// `Up` undoes `Down`, and `Down` undoes `Up`.
pub proof fn lemma_up_undoes_down(cursor: int)
    requires
        0 <= cursor < MENU_LEN,
    ensures
        menu_step(menu_step(cursor, Action::Down).0, Action::Up).0 == cursor,
        menu_step(menu_step(cursor, Action::Up).0, Action::Down).0 == cursor,
{
}

/// Walking down visits every entry and comes back to where it started: one
/// press per entry goes once round.
pub proof fn lemma_down_walks_every_entry(cursor: int)
    requires
        0 <= cursor < MENU_LEN,
    ensures
        menu_step(menu_step(menu_step(cursor, Action::Down).0, Action::Down).0, Action::Down).0
            == cursor,
        0 <= menu_step(cursor, Action::Down).0 < MENU_LEN,
        0 <= menu_step(cursor, Action::Up).0 < MENU_LEN,
{
}

} // verus!
