use sporo::action::Action;
use sporo::app::App;
use sporo::bip39::SeedLength;
use sporo::hints::hints_for;
use sporo::legend::{compose, try_compose, Hint};
use sporo::menu::MenuItem;
use sporo::view::View;

fn press(app: &mut App, action: Action) {
    let _ = app.press(Some(action));
}

/// Types `letters` on the word screen, walking the cursor with `Right`.
fn spell(app: &mut App, letters: &str) {
    for letter in letters.chars() {
        for _ in 0..26 {
            match app.view() {
                View::Words(words) if words.selected() == Some(letter) => break,
                View::Words(_) => press(app, Action::Right),
                _ => panic!("expected the word screen while spelling"),
            }
        }
        press(app, Action::Select);
    }
}

fn menu() -> App {
    let mut app = App::new("0.0.0");
    press(&mut app, Action::Select);
    app
}

fn about() -> App {
    let mut app = menu();
    press(&mut app, Action::Up);
    press(&mut app, Action::Select);
    app
}

fn words() -> App {
    let mut app = menu();
    press(&mut app, Action::Select);
    // "AB" has six letters after it and several words, so every word-screen
    // action does something: move, add, delete, and a refused accept.
    spell(&mut app, "AB");
    app
}

fn coin(length: SeedLength) -> App {
    let mut app = menu();
    while !matches!(
        app.view(),
        View::Menu { selected } if selected == MenuItem::GenerateMnemonic(length)
    ) {
        press(&mut app, Action::Down);
    }
    press(&mut app, Action::Select);
    for _ in 0..length.entered_words() {
        spell(&mut app, "ABANDON");
        press(&mut app, Action::Confirm);
    }
    app
}

fn full(length: SeedLength) -> App {
    let mut app = coin(length);
    for _ in 0..length.final_word_entropy_bits() {
        press(&mut app, Action::Heads);
    }
    app
}

fn phrase(length: SeedLength) -> App {
    let mut app = full(length);
    press(&mut app, Action::Confirm);
    app
}

fn turned(length: SeedLength) -> App {
    let mut app = phrase(length);
    press(&mut app, Action::Right);
    app
}

fn offers(hints: &[Hint], action: Action) -> bool {
    hints.iter().any(|hint| hint.offers(action))
}

#[test]
fn a_legend_offers_exactly_the_keys_that_do_something() {
    let mut samples: Vec<(Box<dyn Fn() -> App>, String)> = vec![
        (Box::new(menu), "menu".to_string()),
        (Box::new(about), "about".to_string()),
        (Box::new(words), "words".to_string()),
    ];
    for length in SeedLength::ALL {
        samples.push((Box::new(move || coin(length)), format!("coin, no flips, {length:?}")));
        samples.push((Box::new(move || full(length)), format!("coin, every flip, {length:?}")));
        samples.push((Box::new(move || phrase(length)), format!("phrase, {length:?}")));
        samples.push((
            Box::new(move || turned(length)),
            format!("phrase, after a page turn, {length:?}"),
        ));
    }

    for (build, screen) in &samples {
        for action in Action::ALL {
            let mut app = build();
            let offered = offers(&hints_for(&app.view()), action);
            let did_something = app.press(Some(action));

            assert_eq!(
                did_something,
                offered,
                "on the {screen} screen, {action:?} {} but the legend {}",
                if did_something {
                    "does something"
                } else {
                    "does nothing"
                },
                if offered {
                    "offers it"
                } else {
                    "leaves it out"
                },
            );
        }
    }
}

#[test]
fn the_legends_read_as_they_did_when_typed_by_hand() {
    let legend = |app: &App| compose(&hints_for(&app.view()));

    assert_eq!(legend(&words()), "4/6 pick  5 add  * del  # next");
    assert_eq!(legend(&menu()), "2/8 move  5 select  * back");
    assert_eq!(legend(&coin(SeedLength::Words12)), "1 heads  0 tails  * undo");
    assert_eq!(legend(&full(SeedLength::Words12)), "* undo a flip  # accept");
    assert_eq!(legend(&phrase(SeedLength::Words12)), "phrase complete  * to edit");
    assert_eq!(legend(&phrase(SeedLength::Words24)), "1/2  4/6 page  * to edit");
    assert_eq!(legend(&turned(SeedLength::Words24)), "2/2  4/6 page  * to edit");
    assert_eq!(legend(&about()), "* back");
}

#[test]
fn a_legend_too_long_for_the_line_is_refused() {
    let hints = [
        Hint::new(&[Action::Left, Action::Right], "this label is long"),
        Hint::new(&[Action::Back], "and so is this"),
    ];
    assert_eq!(try_compose(&hints), None);

    let short = [Hint::new(&[Action::Back], "back")];
    assert_eq!(try_compose(&short).unwrap(), "* back");
}

#[test]
fn the_home_screen_has_no_legend() {
    assert!(hints_for(&View::Home).is_empty());
}
