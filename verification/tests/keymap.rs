use sporo::action::Action;
use sporo::keymap::{action, key, LAYOUT};

fn on_the_keypad(key_char: char) -> bool {
    LAYOUT.iter().flatten().any(|printed| *printed == key_char)
}

#[test]
fn every_action_has_its_own_key() {
    for (index, first) in Action::ALL.iter().enumerate() {
        for second in &Action::ALL[index + 1..] {
            assert_ne!(
                key(*first),
                key(*second),
                "{first:?} and {second:?} share a key"
            );
        }
    }
}

#[test]
fn every_bound_key_is_on_the_keypad() {
    for action in Action::ALL {
        assert!(
            on_the_keypad(key(action)),
            "{action:?} is bound to {:?}, which is not printed on the keypad",
            key(action),
        );
    }
}

#[test]
fn a_key_maps_back_to_the_action_that_owns_it() {
    for action in Action::ALL {
        assert_eq!(sporo::keymap::action(key(action)), Some(action));
    }
}

#[test]
fn three_keys_are_left_unbound() {
    let unbound: heapless::Vec<char, 12> = LAYOUT
        .iter()
        .flatten()
        .copied()
        .filter(|printed| action(*printed).is_none())
        .collect();

    assert_eq!(unbound, ['3', '7', '9']);
}

#[test]
fn the_keys_form_a_pad_around_five() {
    assert_eq!(key(Action::Up), '2');
    assert_eq!(key(Action::Down), '8');
    assert_eq!(key(Action::Left), '4');
    assert_eq!(key(Action::Right), '6');
    assert_eq!(key(Action::Select), '5');
    assert_eq!(key(Action::Back), '*');
    assert_eq!(key(Action::Confirm), '#');
    assert_eq!(key(Action::Heads), '1');
    assert_eq!(key(Action::Tails), '0');
    assert_eq!(action('x'), None);
}
