use sporo::action::Action;
use sporo::bip39::SeedLength;
use sporo::menu::{Menu, MenuEvent, MenuItem};

#[test]
fn a_new_menu_starts_on_the_first_entry() {
    assert_eq!(Menu::new().selected(), MenuItem::all()[0]);
}

#[test]
fn the_cursor_wraps_forwards() {
    let mut menu = Menu::new();

    assert_eq!(menu.press(Action::Down), MenuEvent::Moved);
    assert_eq!(
        menu.selected(),
        MenuItem::GenerateMnemonic(SeedLength::Words24)
    );
    menu.press(Action::Down);
    assert_eq!(menu.selected(), MenuItem::About);

    assert_eq!(menu.press(Action::Down), MenuEvent::Moved);
    assert_eq!(
        menu.selected(),
        MenuItem::GenerateMnemonic(SeedLength::Words12)
    );
}

#[test]
fn the_cursor_wraps_backwards() {
    let mut menu = Menu::new();

    assert_eq!(menu.press(Action::Up), MenuEvent::Moved);
    assert_eq!(menu.selected(), MenuItem::About);
}

#[test]
fn select_reports_the_entry_under_the_cursor() {
    let mut menu = Menu::new();
    for item in MenuItem::all() {
        assert_eq!(menu.press(Action::Select), MenuEvent::Chose(item));
        menu.press(Action::Down);
    }
}

#[test]
fn choosing_leaves_the_cursor_where_it_was() {
    let mut menu = Menu::new();
    menu.press(Action::Up);
    menu.press(Action::Select);

    assert_eq!(menu.selected(), MenuItem::About);
}

#[test]
fn back_dismisses_the_menu() {
    assert_eq!(Menu::new().press(Action::Back), MenuEvent::Dismissed);
}

#[test]
fn actions_the_menu_does_not_use_are_ignored() {
    let mut menu = Menu::new();

    for action in [
        Action::Left,
        Action::Right,
        Action::Confirm,
        Action::Heads,
        Action::Tails,
    ] {
        assert_eq!(
            menu.press(action),
            MenuEvent::Ignored,
            "{action:?} did something"
        );
    }

    assert_eq!(menu.selected(), MenuItem::all()[0]);
}

#[test]
fn the_cursor_reaches_every_entry() {
    let mut menu = Menu::new();

    for item in MenuItem::all() {
        assert_eq!(menu.selected(), item);
        menu.press(Action::Down);
    }

    assert_eq!(menu.selected(), MenuItem::all()[0], "the walk did not wrap");
}

#[test]
fn up_undoes_down() {
    let mut menu = Menu::new();
    menu.press(Action::Down);
    menu.press(Action::Up);

    assert_eq!(menu.selected(), MenuItem::GenerateMnemonic(SeedLength::Words12));
}
