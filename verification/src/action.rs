//! What a keypress asks for, independent of which key it was.

use vstd::prelude::*;

verus! {

/// What the user asked for. The keypad maps onto these (see
/// [`crate::keymap`]); every screen is driven by them alone.
#[derive(Clone, Copy, PartialEq, Eq, Debug, Structural)]
pub enum Action {
    Up,
    Down,
    Left,
    Right,
    Select,
    Back,
    Confirm,
    Heads,
    Tails,
}

impl Action {
    /// Every action, in declaration order.
    pub const ALL: [Self; 9] = [
        Self::Up,
        Self::Down,
        Self::Left,
        Self::Right,
        Self::Select,
        Self::Back,
        Self::Confirm,
        Self::Heads,
        Self::Tails,
    ];
}

/// Every action is listed in [`Action::ALL`].
pub proof fn lemma_all_actions_listed(action: Action)
    ensures
        exists|k: int| 0 <= k < 9 && #[trigger] Action::ALL@[k] == action,
{
    match action {
        Action::Up => assert(Action::ALL@[0] == action),
        Action::Down => assert(Action::ALL@[1] == action),
        Action::Left => assert(Action::ALL@[2] == action),
        Action::Right => assert(Action::ALL@[3] == action),
        Action::Select => assert(Action::ALL@[4] == action),
        Action::Back => assert(Action::ALL@[5] == action),
        Action::Confirm => assert(Action::ALL@[6] == action),
        Action::Heads => assert(Action::ALL@[7] == action),
        Action::Tails => assert(Action::ALL@[8] == action),
    }
}

} // verus!
