//! State for the coin-flip screen: the entropy the final word carries.
//!
//! The eleven typed words fix 121 of a phrase's 128 entropy bits. The remaining
//! seven come from here — one coin flip each, entered on the keypad:
//!
//! | Key | Action                                             |
//! | --- | -------------------------------------------------- |
//! | `1` | record a heads                                      |
//! | `0` | record a tails                                      |
//! | `*` | take the last flip back, or leave once none are left |
//! | `#` | accept the flips, once every one of them is in      |
//!
//! Pure state — no display or GPIO — so the screen code can render it and the
//! main loop can drive it without either knowing about the other. The packing
//! itself is [`crate::flips`]'s.

use vstd::prelude::*;

use crate::bip39::SeedLength;
use crate::flips::{binary_value, Flips};
use crate::word_entry::{KEY_ACCEPT, KEY_DELETE, KEY_HEADS, KEY_TAILS};

pub use crate::flips::Flip;

verus! {

/// Coin flips a phrase needs: one per bit of entropy the final word of a
/// 12-word phrase carries on top of the checksum.
pub const FLIP_COUNT: usize = 7;

/// What a keypress did, for the caller to act on.
///
/// Richer than the `bool` [`crate::word_entry::WordEntry::handle_key`] returns:
/// `#` means "go on to the phrase", but only once every flip is in, and
/// returning a bare "something changed" would leave the caller to re-derive that
/// rule for itself. [`Self::Ignored`] still serves the `bool`'s purpose — it
/// keeps the full-screen redraw off keys that changed nothing.
#[derive(Clone, Copy, PartialEq, Eq, Debug, Structural)]
pub enum CoinEvent {
    /// Nothing to do, and nothing to redraw.
    Ignored,
    /// A flip was recorded or taken back; the screen needs drawing again.
    Changed,
    /// Every flip is in and the user accepted them.
    Confirmed,
    /// `*` with nothing left to take back: the user backed out.
    Dismissed,
}

/// What `key` does to the flips recorded so far, and what it reports.
pub open spec fn coin_step(flips: Seq<Flip>, key: char) -> (Seq<Flip>, CoinEvent) {
    if key == KEY_HEADS && flips.len() < FLIP_COUNT {
        (flips.push(Flip::Heads), CoinEvent::Changed)
    } else if key == KEY_TAILS && flips.len() < FLIP_COUNT {
        (flips.push(Flip::Tails), CoinEvent::Changed)
    } else if key == KEY_DELETE {
        // Backspace first and leave only once there is nothing left to take
        // back, the way `*` walks out of a word one letter at a time rather
        // than abandoning it in one press.
        if flips.len() == 0 {
            (flips, CoinEvent::Dismissed)
        } else {
            (flips.drop_last(), CoinEvent::Changed)
        }
    } else if key == KEY_ACCEPT && flips.len() == FLIP_COUNT {
        (flips, CoinEvent::Confirmed)
    } else {
        (flips, CoinEvent::Ignored)
    }
}

pub struct CoinEntry {
    flips: Flips,
}

impl View for CoinEntry {
    type V = Seq<Flip>;

    /// The flips recorded so far, first flip first.
    closed spec fn view(&self) -> Seq<Flip> {
        self.flips@
    }
}

impl Default for CoinEntry {
    fn default() -> (entry: Self)
        ensures
            entry@ == Seq::<Flip>::empty(),
    {
        Self::new()
    }
}

impl CoinEntry {
    #[verifier::type_invariant]
    spec fn sized_for_seven(self) -> bool {
        self.flips.flips_needed() == FLIP_COUNT
    }

    pub fn new() -> (entry: Self)
        ensures
            entry@ == Seq::<Flip>::empty(),
    {
        Self { flips: Flips::new(SeedLength::Words12) }
    }

    /// Flips recorded so far, which is also the slot the next one lands in.
    pub fn count(&self) -> (count: usize)
        ensures
            count == self@.len(),
            count <= FLIP_COUNT,
    {
        proof {
            use_type_invariant(self);
        }
        self.flips.count()
    }

    pub fn is_complete(&self) -> (complete: bool)
        ensures
            complete == (self@.len() == FLIP_COUNT),
    {
        proof {
            use_type_invariant(self);
        }
        self.flips.is_complete()
    }

    /// The flip recorded in `index`, or `None` for a slot not yet flipped —
    /// which is what lets the screen draw the row without knowing anything about
    /// how the bits are packed.
    pub fn flip(&self, index: usize) -> (flip: Option<Flip>)
        ensures
            flip == if index < self@.len() {
                Some(self@[index as int])
            } else {
                None
            },
    {
        self.flips.flip(index)
    }

    /// The flips as the low [`FLIP_COUNT`] bits of a byte, first flip highest,
    /// or `None` until every one of them is in.
    ///
    /// Withheld rather than returned short: a partial byte reads as a complete
    /// one — three flips would come out as four tails followed by them — and
    /// would complete a phrase the user never authorised.
    pub fn entropy(&self) -> (entropy: Option<u8>)
        ensures
            entropy is Some <==> self@.len() == FLIP_COUNT,
            entropy matches Some(value) ==> value == binary_value(self@),
    {
        proof {
            use_type_invariant(self);
        }
        self.flips.entropy()
    }

    /// Applies a keypress.
    pub fn handle_key(&mut self, key: char) -> (event: CoinEvent)
        ensures
            final(self)@ == coin_step(old(self)@, key).0,
            event == coin_step(old(self)@, key).1,
    {
        proof {
            use_type_invariant(&*self);
        }
        if key == KEY_HEADS && !self.flips.is_complete() {
            self.flips.record(Flip::Heads);
            CoinEvent::Changed
        } else if key == KEY_TAILS && !self.flips.is_complete() {
            self.flips.record(Flip::Tails);
            CoinEvent::Changed
        } else if key == KEY_DELETE {
            if self.flips.undo() {
                CoinEvent::Changed
            } else {
                CoinEvent::Dismissed
            }
        } else if key == KEY_ACCEPT && self.flips.is_complete() {
            CoinEvent::Confirmed
        } else {
            CoinEvent::Ignored
        }
    }
}

/// Only a key that reports [`CoinEvent::Changed`] changes the flips: backing
/// out, confirming and ignored keys leave them exactly as they were — so
/// accepting twice gives the same entropy twice.
pub proof fn lemma_only_a_change_changes_the_flips(flips: Seq<Flip>, key: char)
    ensures
        coin_step(flips, key).1 != CoinEvent::Changed ==> coin_step(flips, key).0 == flips,
{
}

/// No key takes the row past [`FLIP_COUNT`] flips, so the first flip is never
/// shifted out of the byte.
pub proof fn lemma_the_row_never_overflows(flips: Seq<Flip>, key: char)
    requires
        flips.len() <= FLIP_COUNT,
    ensures
        coin_step(flips, key).0.len() <= FLIP_COUNT,
{
}

/// [`CoinEvent::Confirmed`] comes only with every flip in, and
/// [`CoinEvent::Dismissed`] only with none.
pub proof fn lemma_confirm_needs_every_flip(flips: Seq<Flip>, key: char)
    ensures
        coin_step(flips, key).1 == CoinEvent::Confirmed ==> flips.len() == FLIP_COUNT,
        coin_step(flips, key).1 == CoinEvent::Dismissed ==> flips.len() == 0,
{
}

} // verus!
