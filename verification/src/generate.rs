//! The generate workflow: every word but the last typed, a coin flipped for
//! each bit of entropy the last word carries, and that word derived from both.
//! The same steps for every [`SeedLength`]; only the counts differ.

use vstd::prelude::*;

use crate::action::Action;
use crate::bip39::{
    all_resolve, checks_out, complete, complete_of, lemma_resolved_in_list, parse_of,
    phrase_indices, phrase_words, resolve_of, resolved, Mnemonic, SeedLength,
};
use crate::bip39_properties::{lemma_built_phrase_parses, spelled};
use crate::bip39_wordlist::{
    lemma_list_word_bytes, lemma_words_are_lowercase_letters, wordlist, COUNT,
};
use crate::flips::{binary_value, Flip, Flips};
use crate::keymap::key;
use crate::view::{pages_for, phrase_pages};
pub use crate::workflow::Outcome;
use crate::word_entry::{
    delete_step, is_upper_word, key_step, lemma_accepted_words_resolve, upper_word, WordEntry,
};

verus! {

/// Where the workflow stands.
pub enum Step {
    Words,
    Coin,
    /// Derived on the way in rather than on every redraw, and held only while
    /// it is on screen: leaving this step drops it.
    Phrase { mnemonic: Mnemonic, page: usize },
}

pub struct Generate {
    length: SeedLength,
    words: WordEntry,
    /// Kept for the life of the phrase, not per visit to the coin screen.
    /// Going back from the phrase to check a word and accepting it again lands
    /// on the same flips, so the final word does not change under a user who
    /// has already written it down — and they can see that it did not.
    flips: Flips,
    step: Step,
}

/// Whether `entry` has every word its phrase takes.
pub open spec fn words_complete(entry: WordEntry) -> bool {
    entry.accepted_words().len() == entry.words_needed()
}

/// Whether `entry` has nothing typed at all.
pub open spec fn words_empty(entry: WordEntry) -> bool {
    entry.accepted_words().len() == 0 && entry.current_letters().len() == 0
}

/// The phrase of `length` the accepted words of `entry` and the flips complete
/// to.
pub open spec fn completed_phrase(length: SeedLength, entry: WordEntry, flips: Seq<Flip>) -> Seq<
    Seq<char>,
> {
    phrase_words(complete_of(length, entry.accepted_words(), binary_value(flips) as u8)->0)
}

/// The flip an action records, if it records one.
pub open spec fn flip_of(action: Action) -> Flip {
    if action == Action::Heads {
        Flip::Heads
    } else {
        Flip::Tails
    }
}

impl Generate {
    pub closed spec fn phrase_length(self) -> SeedLength {
        self.length
    }

    /// The words typed so far.
    pub closed spec fn entry(self) -> WordEntry {
        self.words
    }

    /// The flips recorded so far.
    pub closed spec fn coin_flips(self) -> Flips {
        self.flips
    }

    pub closed spec fn step_now(self) -> Step {
        self.step
    }

    /// The workflow is consistent: the entry and the flips are sized for the
    /// phrase, the coin screen is open only with every word in, and a phrase on
    /// screen is always the completion of the words and flips behind it.
    pub open spec fn wf(self) -> bool {
        &&& self.entry().wf()
        &&& self.entry().words_needed() == self.phrase_length().entered_words()
        &&& self.coin_flips().flips_needed() == self.phrase_length().final_word_entropy_bits()
        &&& self.coin_flips()@.len() <= self.coin_flips().flips_needed()
        &&& match self.step_now() {
            Step::Words => true,
            Step::Coin => words_complete(self.entry()),
            Step::Phrase { mnemonic, page } => {
                &&& words_complete(self.entry())
                &&& self.coin_flips()@.len() == self.coin_flips().flips_needed()
                &&& mnemonic.phrase_length() == self.phrase_length()
                &&& mnemonic@ == completed_phrase(
                    self.phrase_length(),
                    self.entry(),
                    self.coin_flips()@,
                )
                &&& page < pages_for(self.phrase_length().total_words() as nat)
            },
        }
    }

    /// A workflow just opened for a phrase of `length`: nothing typed, no
    /// flips, on the word screen.
    pub open spec fn is_fresh(self, length: SeedLength) -> bool {
        &&& self.wf()
        &&& self.phrase_length() == length
        &&& words_empty(self.entry())
        &&& !self.entry().refused()
        &&& self.coin_flips()@ == Seq::<Flip>::empty()
        &&& self.step_now() == Step::Words
    }

    pub fn new(length: SeedLength) -> (generate: Self)
        ensures
            generate.is_fresh(length),
    {
        Self {
            length,
            words: WordEntry::for_length(length),
            flips: Flips::new(length),
            step: Step::Words,
        }
    }

    /// Applies an action.
    pub fn press(&mut self, action: Action) -> (outcome: Outcome)
        requires
            old(self).wf(),
        ensures
            final(self).wf(),
            generate_step(*old(self), action, *final(self), outcome),
    {
        match self.step {
            Step::Words => self.press_words(action),
            Step::Coin => self.press_coin(action),
            Step::Phrase { mnemonic, page } => self.press_phrase(action, mnemonic, page),
        }
    }

    fn press_words(&mut self, action: Action) -> (outcome: Outcome)
        requires
            old(self).wf(),
            old(self).step_now() == Step::Words,
        ensures
            final(self).wf(),
            generate_step(*old(self), action, *final(self), outcome),
    {
        if action == Action::Back && self.words.is_empty() {
            return Outcome::Exit;
        }
        let changed = self.words.handle_key(key(action));

        // The second-to-last word is the last the keypad can spell. The bits
        // the final word carries come off the coin screen, which opens here.
        if changed && self.words.is_complete() {
            self.step = Step::Coin;
        }
        if changed {
            Outcome::Redraw
        } else {
            Outcome::Unchanged
        }
    }

    fn press_coin(&mut self, action: Action) -> (outcome: Outcome)
        requires
            old(self).wf(),
            old(self).step_now() == Step::Coin,
        ensures
            final(self).wf(),
            generate_step(*old(self), action, *final(self), outcome),
    {
        match action {
            Action::Heads => {
                if self.flips.record(Flip::Heads) {
                    Outcome::Redraw
                } else {
                    Outcome::Unchanged
                }
            },
            Action::Tails => {
                if self.flips.record(Flip::Tails) {
                    Outcome::Redraw
                } else {
                    Outcome::Unchanged
                }
            },
            // Backspace first, and step back only once there is nothing left
            // to take back — the way `Back` walks out of a word one letter at a
            // time rather than abandoning it in one press.
            Action::Back => {
                if !self.flips.undo() {
                    self.reopen_last_word();
                }
                Outcome::Redraw
            },
            Action::Confirm => match self.flips.entropy() {
                Some(entropy) => {
                    proof {
                        self.lemma_words_complete_a_phrase(entropy);
                    }
                    match complete(self.length, self.words.accepted(), entropy) {
                        Some(mnemonic) => {
                            self.step = Step::Phrase { mnemonic, page: 0 };
                            Outcome::Redraw
                        },
                        None => Outcome::Unchanged,
                    }
                },
                None => Outcome::Unchanged,
            },
            _ => Outcome::Unchanged,
        }
    }

    /// Every accepted word resolved against the wordlist when it was accepted,
    /// so with every word in, the words always complete to a phrase.
    proof fn lemma_words_complete_a_phrase(self, extra: u8)
        requires
            self.wf(),
            words_complete(self.entry()),
        ensures
            complete_of(self.phrase_length(), self.entry().accepted_words(), extra) is Some,
    {
        let words = self.entry().accepted_words();
        assert forall|k: int| 0 <= k < words.len() implies (#[trigger] resolve_of(
            words[k],
        )) is Some by {
            assert(is_upper_word(words[k]));
            let i = choose|i: int| 0 <= i < COUNT && words[k] == upper_word(i);
            lemma_accepted_words_resolve(i);
        }
        assert(all_resolve(words));
    }

    fn press_phrase(&mut self, action: Action, mnemonic: Mnemonic, page: usize) -> (outcome:
        Outcome)
        requires
            old(self).wf(),
            old(self).step_now() == (Step::Phrase { mnemonic, page }),
        ensures
            final(self).wf(),
            generate_step(*old(self), action, *final(self), outcome),
    {
        let pages = phrase_pages(&mnemonic);
        match action {
            // `Back` reopens the last word for editing, exactly as it does
            // from the coin screen.
            Action::Back => {
                self.reopen_last_word();
                Outcome::Redraw
            },
            // `Left` and `Right` turn the page on a phrase too long for one.
            // Wraps, as the menu cursor does: with two pages, either key is the
            // other page.
            Action::Left | Action::Right => {
                if pages > 1 {
                    let turned = if action == Action::Right {
                        (page + 1) % pages
                    } else {
                        (page + pages - 1) % pages
                    };
                    self.step = Step::Phrase { mnemonic, page: turned };
                    Outcome::Redraw
                } else {
                    Outcome::Unchanged
                }
            },
            _ => Outcome::Unchanged,
        }
    }

    /// What the panel shows for the workflow.
    pub fn view(&self) -> (view: crate::view::View<'_>)
        ensures
            match self.step_now() {
                Step::Words => view matches crate::view::View::Words(words) && *words == self.entry(),
                Step::Coin => view matches crate::view::View::Coin(flips) && *flips == self.coin_flips(),
                Step::Phrase { mnemonic, page } => view matches crate::view::View::Phrase {
                    mnemonic: shown,
                    page: shown_page,
                } && *shown == mnemonic && shown_page == page,
            },
    {
        match &self.step {
            Step::Words => crate::view::View::Words(&self.words),
            Step::Coin => crate::view::View::Coin(&self.flips),
            Step::Phrase { mnemonic, page } => crate::view::View::Phrase { mnemonic, page: *page },
        }
    }

    /// Steps back from past the words to the last of them, open for editing.
    ///
    /// Opening it, rather than showing the word screen with every word in and
    /// no letter on offer, is what keeps the step back from being a dead end.
    fn reopen_last_word(&mut self)
        requires
            old(self).entry().wf(),
            old(self).entry().words_needed() == old(self).phrase_length().entered_words(),
            old(self).coin_flips().flips_needed()
                == old(self).phrase_length().final_word_entropy_bits(),
            old(self).coin_flips()@.len() <= old(self).coin_flips().flips_needed(),
        ensures
            final(self).wf(),
            final(self).phrase_length() == old(self).phrase_length(),
            delete_step(old(self).entry(), final(self).entry()),
            final(self).entry().refused() == old(self).entry().refused(),
            final(self).coin_flips() == old(self).coin_flips(),
            final(self).step_now() == Step::Words,
    {
        self.words.delete();
        self.step = Step::Words;
    }
}

/// A phrase on screen depends on nothing but the words and the flips behind it:
/// going back to edit a word and confirming again with the same words and flips
/// shows the same phrase, so the final word does not change under a user who
/// has already written it down.
pub proof fn lemma_same_words_and_flips_same_phrase(a: Generate, b: Generate)
    requires
        a.wf(),
        b.wf(),
        a.phrase_length() == b.phrase_length(),
        a.entry().accepted_words() == b.entry().accepted_words(),
        a.coin_flips()@ == b.coin_flips()@,
        a.step_now() is Phrase,
        b.step_now() is Phrase,
    ensures
        a.step_now()->mnemonic@ == b.step_now()->mnemonic@,
{
}

/// The edit round trip keeps the phrase. From a phrase on screen, `Back`
/// reopens the last word, `Confirm` accepts it again as it stood and lands on
/// the coin screen with every flip still in, and `Confirm` once more shows the
/// very same phrase, final word included, on its first page.
pub proof fn lemma_edit_round_trip_keeps_the_phrase(
    shown: Generate,
    reopened: Generate,
    reaccepted: Generate,
    again: Generate,
    first: Outcome,
    second: Outcome,
    third: Outcome,
)
    requires
        shown.wf(),
        shown.step_now() is Phrase,
        generate_step(shown, Action::Back, reopened, first),
        reopened.wf(),
        generate_step(reopened, Action::Confirm, reaccepted, second),
        reaccepted.wf(),
        generate_step(reaccepted, Action::Confirm, again, third),
        again.wf(),
    ensures
        first == Outcome::Redraw,
        reopened.step_now() == Step::Words,
        second == Outcome::Redraw,
        reaccepted.step_now() == Step::Coin,
        reaccepted.entry().accepted_words() == shown.entry().accepted_words(),
        reaccepted.coin_flips() == shown.coin_flips(),
        third == Outcome::Redraw,
        again.step_now() matches Step::Phrase { mnemonic, page } && page == 0 && mnemonic@
            == shown.step_now()->mnemonic@,
{
    let before = shown.entry();
    let words = before.accepted_words();
    let last = words.last();
    assert(words.len() == before.words_needed());
    assert(before.current_letters().len() == 0);
    assert(is_upper_word(last));
    let i = choose|i: int| 0 <= i < COUNT && last == upper_word(i);
    lemma_accepted_words_resolve(i);
    lemma_words_are_lowercase_letters();
    lemma_list_word_bytes(wordlist()[i]);
    assert(upper_word(i).len() > 0);
    assert(reopened.entry().current_letters() == last);
    assert(reaccepted.entry().accepted_words() =~= words.drop_last().push(upper_word(i)));
    assert(reaccepted.entry().accepted_words() =~= words);
}

/// The phrase on screen is always one other wallets accept: it passes its own
/// checksum, and typed back in, word for word, it reads as the same phrase.
pub proof fn lemma_shown_phrase_checks_out(generate: Generate)
    requires
        generate.wf(),
        generate.step_now() is Phrase,
    ensures
        exists|indices: Seq<u16>|
            generate.step_now()->mnemonic@ == phrase_words(indices) && checks_out(
                generate.phrase_length(),
                indices,
            ) && parse_of(generate.phrase_length(), spelled(indices)) == Some(indices),
{
    let length = generate.phrase_length();
    let extra = binary_value(generate.coin_flips()@) as u8;
    let words = generate.entry().accepted_words();
    generate.lemma_words_complete_a_phrase(extra);
    let entered = resolved(words);
    assert forall|k: int| 0 <= k < entered.len() implies #[trigger] entered[k] < COUNT by {
        assert(resolve_of(words[k]) is Some);
        lemma_resolved_in_list(words[k]);
    }
    lemma_built_phrase_parses(length, entered, extra);
    let indices = phrase_indices(length, entered, extra);
    assert(generate.step_now()->mnemonic@ == phrase_words(indices));
}

/// What `action` does to the workflow, and what it reports.
///
/// On the word screen every action is the key [`key`] gives it, applied to the
/// entry ([`key_step`]), except `Back` with nothing typed, which leaves; the
/// coin screen opens as the last word is accepted. On the coin screen `Heads`
/// and `Tails` record a flip until the row is full, `Back` takes one back or,
/// with none left, reopens the last word, and `Confirm` with every flip in
/// shows the completed phrase. On the phrase `Back` reopens the last word and
/// `Left` and `Right` turn the page, wrapping, when there is more than one.
/// Anything else changes nothing.
pub open spec fn generate_step(before: Generate, action: Action, after: Generate, outcome: Outcome) -> bool {
    let length = before.phrase_length();
    let flips = before.coin_flips()@;
    let unchanged = after.entry() == before.entry() && after.coin_flips() == before.coin_flips()
        && after.step_now() == before.step_now();
    &&& after.phrase_length() == length
    &&& match before.step_now() {
        Step::Words => if action == Action::Back && words_empty(before.entry()) {
            outcome == Outcome::Exit && unchanged
        } else {
            &&& outcome != Outcome::Exit
            &&& key_step(before.entry(), key(action), after.entry(), outcome == Outcome::Redraw)
            &&& after.coin_flips() == before.coin_flips()
            &&& after.step_now() == if outcome == Outcome::Redraw && words_complete(after.entry()) {
                Step::Coin
            } else {
                Step::Words
            }
        },
        Step::Coin => match action {
            Action::Heads | Action::Tails => {
                &&& after.entry() == before.entry()
                &&& after.step_now() == Step::Coin
                &&& after.coin_flips().flips_needed() == before.coin_flips().flips_needed()
                &&& if flips.len() < before.coin_flips().flips_needed() {
                    after.coin_flips()@ == flips.push(flip_of(action)) && outcome
                        == Outcome::Redraw
                } else {
                    after.coin_flips()@ == flips && outcome == Outcome::Unchanged
                }
            },
            Action::Back => {
                &&& outcome == Outcome::Redraw
                &&& after.coin_flips().flips_needed() == before.coin_flips().flips_needed()
                &&& if flips.len() > 0 {
                    &&& after.coin_flips()@ == flips.drop_last()
                    &&& after.entry() == before.entry()
                    &&& after.step_now() == Step::Coin
                } else {
                    &&& after.coin_flips() == before.coin_flips()
                    &&& delete_step(before.entry(), after.entry())
                    &&& after.entry().refused() == before.entry().refused()
                    &&& after.step_now() == Step::Words
                }
            },
            Action::Confirm => if flips.len() == before.coin_flips().flips_needed() {
                &&& outcome == Outcome::Redraw
                &&& after.entry() == before.entry()
                &&& after.coin_flips() == before.coin_flips()
                &&& after.step_now() matches Step::Phrase { page, .. }
                &&& page == 0
            } else {
                outcome == Outcome::Unchanged && unchanged
            },
            _ => outcome == Outcome::Unchanged && unchanged,
        },
        Step::Phrase { mnemonic, page } => {
            let pages = pages_for(length.total_words() as nat);
            match action {
                Action::Back => {
                    &&& outcome == Outcome::Redraw
                    &&& after.coin_flips() == before.coin_flips()
                    &&& delete_step(before.entry(), after.entry())
                    &&& after.entry().refused() == before.entry().refused()
                    &&& after.step_now() == Step::Words
                },
                Action::Left | Action::Right => if pages > 1 {
                    &&& outcome == Outcome::Redraw
                    &&& after.entry() == before.entry()
                    &&& after.coin_flips() == before.coin_flips()
                    &&& after.step_now() == (Step::Phrase {
                        mnemonic,
                        page: (if action == Action::Right {
                            (page + 1) % (pages as int)
                        } else {
                            (page + pages - 1) % (pages as int)
                        }) as usize,
                    })
                } else {
                    outcome == Outcome::Unchanged && unchanged
                },
                _ => outcome == Outcome::Unchanged && unchanged,
            }
        },
    }
}

} // verus!
