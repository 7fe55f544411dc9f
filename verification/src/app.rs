//! What each key does, and which screen comes next.
//!
//! Everything here is interaction: where a cursor is, what a keypress changes,
//! when a workflow moves on. Nothing here draws or touches a pin, so a whole
//! workflow can be walked through on the host and checked, rather than only by
//! pressing keys on the board.

use vstd::prelude::*;

use crate::action::Action;
use crate::hints::offered_for;
use crate::view::pages_for;
use crate::generate::{generate_step, words_empty, Generate, Outcome, Step};
use crate::menu::{menu_step, Menu, MenuEvent, MenuItem};

verus! {

/// The open screen, carrying the state of any workflow behind it.
///
/// Holding a workflow's state inside its variant is what makes leaving the
/// workflow forget it: there is nowhere else for that state to survive.
pub enum Screen {
    Home,
    Menu,
    About,
    Generate(Generate),
}

pub struct App {
    version: &'static str,
    /// Hub state, outliving every screen: coming back from About lands on the
    /// entry that opened it.
    menu: Menu,
    screen: Screen,
}

impl App {
    pub closed spec fn version_text(self) -> &'static str {
        self.version
    }

    pub closed spec fn hub(self) -> Menu {
        self.menu
    }

    pub closed spec fn screen_now(self) -> Screen {
        self.screen
    }

    /// The application is consistent: any workflow open is.
    pub open spec fn wf(self) -> bool {
        self.screen_now() matches Screen::Generate(generate) ==> generate.wf()
    }

    /// A new application: the home screen, with the menu cursor on the first
    /// entry.
    pub open spec fn is_new(self, version: &'static str) -> bool {
        &&& self.version_text() == version
        &&& self.hub()@ == 0
        &&& self.screen_now() == Screen::Home
    }

    pub fn new(version: &'static str) -> (app: Self)
        ensures
            app.wf(),
            app.is_new(version),
    {
        Self { version, menu: Menu::new(), screen: Screen::Home }
    }

    /// Applies a keypress. `None` is a key bound to no action. Returns whether
    /// the screen needs drawing again, so a press that changed nothing costs no
    /// full-screen blit.
    #[must_use]
    pub fn press(&mut self, action: Option<Action>) -> (redraw: bool)
        requires
            old(self).wf(),
        ensures
            final(self).wf(),
            app_step(*old(self), action, *final(self), redraw),
    {
        // Any key leaves the home screen — including the ones bound to nothing,
        // since the screen says "press any key" — and only leaves it:
        // swallowing the press keeps it from also nudging the menu cursor off
        // the first entry.
        if let Screen::Home = self.screen {
            self.screen = Screen::Menu;
            return true;
        }

        // Past the home screen a key bound to nothing does nothing.
        let action = match action {
            Some(action) => action,
            None => {
                return false;
            },
        };

        if let Screen::Menu = self.screen {
            return match self.menu.press(action) {
                MenuEvent::Ignored => false,
                MenuEvent::Moved => true,
                MenuEvent::Chose(MenuItem::GenerateMnemonic(length)) => {
                    self.screen = Screen::Generate(Generate::new(length));
                    true
                },
                MenuEvent::Chose(MenuItem::About) => {
                    self.screen = Screen::About;
                    true
                },
                MenuEvent::Dismissed => {
                    self.screen = Screen::Home;
                    true
                },
            };
        }

        if let Screen::About = self.screen {
            // Nothing to pick; `Back` is the way back, as it is everywhere else.
            if action == Action::Back {
                self.screen = Screen::Menu;
            }
            return action == Action::Back;
        }

        let mut screen = Screen::Home;
        std::mem::swap(&mut screen, &mut self.screen);
        match screen {
            Screen::Generate(mut generate) => match generate.press(action) {
                Outcome::Unchanged => {
                    self.screen = Screen::Generate(generate);
                    false
                },
                Outcome::Redraw => {
                    self.screen = Screen::Generate(generate);
                    true
                },
                Outcome::Exit => {
                    self.screen = Screen::Menu;
                    true
                },
            },
            other => {
                self.screen = other;
                false
            },
        }
    }

    /// Starts over from nothing — the board button. The caller always redraws.
    ///
    /// A new `App` rather than a list of fields to clear, so nothing added later
    /// can be forgotten by it.
    pub fn reset(&mut self)
        ensures
            final(self).wf(),
            final(self).is_new(old(self).version_text()),
    {
        *self = Self::new(self.version);
    }

    /// What the panel shows.
    pub fn view(&self) -> (view: crate::view::View<'_>)
        ensures
            shows(*self, view),
    {
        match &self.screen {
            Screen::Home => crate::view::View::Home,
            Screen::Menu => crate::view::View::Menu { selected: self.menu.selected() },
            Screen::About => crate::view::View::About { version: self.version },
            Screen::Generate(generate) => generate.view(),
        }
    }
}

/// Whether `view` is what the panel shows for `app`: the screen open, and for a
/// workflow the step it is on, borrowing the state it draws from.
pub open spec fn shows(app: App, view: crate::view::View) -> bool {
    match app.screen_now() {
        Screen::Home => view == crate::view::View::Home,
        Screen::Menu => view == (crate::view::View::Menu {
            selected: crate::menu::menu_item(app.hub()@),
        }),
        Screen::About => view == (crate::view::View::About { version: app.version_text() }),
        Screen::Generate(generate) => match generate.step_now() {
            Step::Words => view matches crate::view::View::Words(words) && *words
                == generate.entry(),
            Step::Coin => view matches crate::view::View::Coin(flips) && *flips
                == generate.coin_flips(),
            Step::Phrase { mnemonic, page } => view matches crate::view::View::Phrase {
                mnemonic: shown,
                page: shown_page,
            } && *shown == mnemonic && shown_page == page,
        },
    }
}

/// What a keypress does to the application, and whether it asks for a redraw.
///
/// Any key leaves the home screen for the menu and does nothing else. Past it, a
/// key bound to nothing does nothing. The menu follows [`menu_step`]: choosing a
/// length opens a fresh generate workflow for it, choosing About opens that
/// screen, and `Back` goes home. On About only `Back` does anything, returning to
/// the menu. An open workflow follows [`generate_step`], and its exit returns to
/// the menu. The menu cursor changes only on the menu.
pub open spec fn app_step(before: App, action: Option<Action>, after: App, redraw: bool) -> bool {
    &&& after.version_text() == before.version_text()
    &&& match before.screen_now() {
        Screen::Home => {
            &&& after.screen_now() == Screen::Menu
            &&& after.hub() == before.hub()
            &&& redraw
        },
        _ => match action {
            None => {
                &&& after.screen_now() == before.screen_now()
                &&& after.hub() == before.hub()
                &&& !redraw
            },
            Some(action) => match before.screen_now() {
                Screen::Menu => {
                    let (cursor, event) = menu_step(before.hub()@, action);
                    &&& after.hub()@ == cursor
                    &&& match event {
                        MenuEvent::Ignored => after.screen_now() == Screen::Menu && !redraw,
                        MenuEvent::Moved => after.screen_now() == Screen::Menu && redraw,
                        MenuEvent::Chose(MenuItem::GenerateMnemonic(length)) => {
                            &&& after.screen_now() matches Screen::Generate(generate)
                            &&& generate.is_fresh(length)
                            &&& redraw
                        },
                        MenuEvent::Chose(MenuItem::About) => after.screen_now() == Screen::About
                            && redraw,
                        MenuEvent::Dismissed => after.screen_now() == Screen::Home && redraw,
                    }
                },
                Screen::About => {
                    &&& after.hub() == before.hub()
                    &&& redraw == (action == Action::Back)
                    &&& after.screen_now() == if action == Action::Back {
                        Screen::Menu
                    } else {
                        Screen::About
                    }
                },
                Screen::Generate(generate) => {
                    &&& after.hub() == before.hub()
                    &&& if generate.step_now() == Step::Words && action == Action::Back
                        && words_empty(generate.entry()) {
                        after.screen_now() == Screen::Menu && redraw
                    } else {
                        &&& after.screen_now() matches Screen::Generate(next)
                        &&& generate_step(
                            generate,
                            action,
                            next,
                            if redraw {
                                Outcome::Redraw
                            } else {
                                Outcome::Unchanged
                            },
                        )
                    }
                },
                Screen::Home => true,
            },
        },
    }
}

/// Past the home screen, on every screen but the word screen, the legend
/// offers exactly the keys that do something: a key it names always asks for a
/// redraw, and a key it leaves out never does. The word screen is the exception
/// its legend cannot avoid: `#` does nothing on an empty word, and `4` and `6`
/// nothing with a single letter on offer.
pub proof fn lemma_legend_offers_what_does_something(
    before: App,
    view: crate::view::View,
    action: Action,
    after: App,
    redraw: bool,
)
    requires
        before.wf(),
        shows(before, view),
        app_step(before, Some(action), after, redraw),
        !(view is Home),
        !(view is Words),
    ensures
        redraw == offered_for(view).contains(action),
{
    match before.screen_now() {
        Screen::Menu => {
            assert(offered_for(view) == set![Action::Up, Action::Down, Action::Select, Action::Back]);
            match action {
                Action::Up | Action::Down | Action::Select | Action::Back => {
                    assert(offered_for(view).contains(action));
                },
                _ => {
                    assert(!offered_for(view).contains(action));
                },
            }
        },
        Screen::About => {
            assert(offered_for(view) == set![Action::Back]);
            if action != Action::Back {
                assert(!offered_for(view).contains(action));
            }
        },
        Screen::Generate(generate) => {
            match generate.step_now() {
                Step::Coin => {
                    let flips = generate.coin_flips();
                    if flips@.len() == flips.flips_needed() {
                        assert(offered_for(view) == set![Action::Back, Action::Confirm]);
                        match action {
                            Action::Back | Action::Confirm => {
                                assert(offered_for(view).contains(action));
                            },
                            _ => {
                                assert(!offered_for(view).contains(action));
                            },
                        }
                    } else {
                        assert(offered_for(view) == set![Action::Heads, Action::Tails, Action::Back]);
                        match action {
                            Action::Heads | Action::Tails | Action::Back => {
                                assert(offered_for(view).contains(action));
                            },
                            _ => {
                                assert(!offered_for(view).contains(action));
                            },
                        }
                    }
                },
                Step::Phrase { mnemonic, page } => {
                    if pages_for(generate.phrase_length().total_words() as nat) > 1 {
                        assert(offered_for(view) == set![Action::Left, Action::Right, Action::Back]);
                        match action {
                            Action::Left | Action::Right | Action::Back => {
                                assert(offered_for(view).contains(action));
                            },
                            _ => {
                                assert(!offered_for(view).contains(action));
                            },
                        }
                    } else {
                        assert(offered_for(view) == set![Action::Back]);
                        if action != Action::Back {
                            assert(!offered_for(view).contains(action));
                        }
                    }
                },
                Step::Words => {},
            }
        },
        Screen::Home => {},
    }
}

} // verus!
