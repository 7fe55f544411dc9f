//! What the panel should be showing, as the application sees it.

use vstd::prelude::*;

use crate::bip39::{Mnemonic, SeedLength};
use crate::flips::Flips;
use crate::menu::MenuItem;
use crate::word_entry::WordEntry;

verus! {

/// Words of a finished phrase shown at once. A 12-word phrase is one page; a
/// 24-word one is two, turned with `Left` and `Right`.
pub const PHRASE_PAGE_SIZE: usize = 12;

/// Pages a phrase of `words` words takes at [`PHRASE_PAGE_SIZE`] apiece: the
/// last page may be short, but no page is empty.
pub open spec fn pages_for(words: nat) -> nat {
    ((words + PHRASE_PAGE_SIZE - 1) / (PHRASE_PAGE_SIZE as int)) as nat
}

/// Pages `mnemonic` takes at [`PHRASE_PAGE_SIZE`] words apiece.
pub fn phrase_pages(mnemonic: &Mnemonic) -> (pages: usize)
    ensures
        pages == pages_for(mnemonic.phrase_length().total_words() as nat),
        pages >= 1,
{
    let words = mnemonic.words().len();
    (words + PHRASE_PAGE_SIZE - 1) / PHRASE_PAGE_SIZE
}

/// One screen's worth of state, borrowed from the [`crate::app::App`] that owns
/// it. The screens draw from this and nothing else.
///
/// Borrowed rather than copied: the phrase is the one thing on this device that
/// must not be left lying around in extra places. Deliberately not `Debug`, and
/// nor is anything it borrows that holds part of a phrase.
#[derive(Clone, Copy)]
pub enum View<'a> {
    Home,
    Menu { selected: MenuItem },
    /// Picking the length of the phrases a workflow reads.
    SeedLengthPick { selected: SeedLength },
    About { version: &'static str },
    Words(&'a WordEntry),
    Coin(&'a Flips),
    /// `page` counts from 0, and is always below [`phrase_pages`].
    Phrase { mnemonic: &'a Mnemonic, page: usize },
}

} // verus!
