use sporo::action::Action;
use sporo::legend::{compose, Hint};

#[test]
fn keys_of_one_hint_are_joined_by_a_slash() {
    let line = compose(&[Hint::new(&[Action::Left, Action::Right], "pick")]);

    assert_eq!(line, "4/6 pick");
}

#[test]
fn hints_are_separated_by_two_spaces() {
    let line = compose(&[
        Hint::new(&[Action::Select], "add"),
        Hint::new(&[Action::Back], "del"),
    ]);

    assert_eq!(line, "5 add  * del");
}

#[test]
fn a_note_has_no_key_in_front_of_it() {
    let line = compose(&[
        Hint::note("phrase complete"),
        Hint::new(&[Action::Back], "to edit"),
    ]);

    assert_eq!(line, "phrase complete  * to edit");
}

#[test]
fn the_word_screen_legend_reads_as_typed_by_hand() {
    let line = compose(&[
        Hint::new(&[Action::Left, Action::Right], "pick"),
        Hint::new(&[Action::Select], "add"),
        Hint::new(&[Action::Back], "del"),
        Hint::new(&[Action::Confirm], "next"),
    ]);

    assert_eq!(line, "4/6 pick  5 add  * del  # next");
}

#[test]
fn a_hint_offers_only_its_own_keys() {
    let hint = Hint::new(&[Action::Heads, Action::Tails], "flip");

    assert!(hint.offers(Action::Heads));
    assert!(hint.offers(Action::Tails));
    assert!(!hint.offers(Action::Back));
    assert!(!Hint::note("phrase complete").offers(Action::Back));
}

#[test]
fn no_hints_make_an_empty_legend() {
    assert_eq!(compose(&[]), "");
}
