//! Which printed key asks for which [`Action`].
//!
//! The one place a key character means something. The application only ever
//! sees actions, and every legend on the panel is composed from [`key`], so a
//! rebinding here changes what the keys do and what the screens say they do in
//! the same edit — there is no second copy of the binding to fall out of step.

use vstd::prelude::*;

use crate::action::{lemma_all_actions_listed, Action};

verus! {

/// The characters printed on the keypad, row-major from the top left — the order
/// the firmware's matrix scan indexes them in.
pub const LAYOUT: [[char; 3]; 4] = [
    ['1', '2', '3'],
    ['4', '5', '6'],
    ['7', '8', '9'],
    ['*', '0', '#'],
];

/// The key that asks for `action`.
///
/// The keys form a d-pad around `5`, which is why the names are directions:
/// `2`/`8` move up and down, `4`/`6` left and right, `5` selects. `1` and `0`
/// sit well apart from each other, so a fumbled press is unlikely to record the
/// wrong flip.
#[verifier::allow_in_spec]
pub fn key(action: Action) -> char
    returns
        (match action {
            Action::Up => '2',
            Action::Down => '8',
            Action::Left => '4',
            Action::Right => '6',
            Action::Select => '5',
            Action::Back => '*',
            Action::Confirm => '#',
            Action::Heads => '1',
            Action::Tails => '0',
        }),
{
    match action {
        Action::Up => '2',
        Action::Down => '8',
        Action::Left => '4',
        Action::Right => '6',
        Action::Select => '5',
        Action::Back => '*',
        Action::Confirm => '#',
        Action::Heads => '1',
        Action::Tails => '0',
    }
}

/// The action a pressed key asks for, or `None` for a key bound to nothing.
///
/// Derived from [`key`] rather than written out a second time, so the two
/// directions cannot disagree.
pub fn action(key_char: char) -> (found: Option<Action>)
    ensures
        found matches Some(a) ==> key(a) == key_char,
        found is None ==> forall|a: Action| key(a) != key_char,
        forall|a: Action| key(a) == key_char ==> found == Some(a),
{
    let mut index: usize = 0;
    while index < 9
        invariant
            index <= 9,
            forall|k: int| 0 <= k < index ==> key(#[trigger] Action::ALL@[k]) != key_char,
        decreases 9 - index,
    {
        let candidate = Action::ALL[index];
        if key(candidate) == key_char {
            proof {
                assert forall|a: Action| key(a) == key_char implies candidate == a by {
                    lemma_keys_are_distinct(a, candidate);
                }
            }
            return Some(candidate);
        }
        index = index + 1;
    }
    proof {
        assert forall|a: Action| key(a) != key_char by {
            lemma_all_actions_listed(a);
        }
    }
    None
}

/// Every action has a key of its own: no two share one, so [`action`] never has
/// to choose between them and each key maps back to the action that owns it.
pub proof fn lemma_keys_are_distinct(a: Action, b: Action)
    requires
        key(a) == key(b),
    ensures
        a == b,
{
}

/// Whether `key_char` is printed on the keypad.
pub open spec fn on_the_keypad(key_char: char) -> bool {
    exists|row: int, column: int|
        0 <= row < 4 && 0 <= column < 3 && #[trigger] LAYOUT@[row]@[column] == key_char
}

/// Every bound key is printed on the keypad.
pub proof fn lemma_every_key_is_on_the_keypad(action: Action)
    ensures
        on_the_keypad(key(action)),
{
    match action {
        Action::Up => assert(LAYOUT@[0]@[1] == key(action)),
        Action::Down => assert(LAYOUT@[2]@[1] == key(action)),
        Action::Left => assert(LAYOUT@[1]@[0] == key(action)),
        Action::Right => assert(LAYOUT@[1]@[2] == key(action)),
        Action::Select => assert(LAYOUT@[1]@[1] == key(action)),
        Action::Back => assert(LAYOUT@[3]@[0] == key(action)),
        Action::Confirm => assert(LAYOUT@[3]@[2] == key(action)),
        Action::Heads => assert(LAYOUT@[0]@[0] == key(action)),
        Action::Tails => assert(LAYOUT@[3]@[1] == key(action)),
    }
}

} // verus!
