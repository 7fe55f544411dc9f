//! The XOR workflow: two phrases the user already has, typed in full, combined
//! into a third.
//!
//! Every word but the last is the XOR of the two inputs at that position. The
//! last cannot be, because it carries the checksum over everything before it, so
//! it is derived the way the generate workflow derives its own — from coin
//! flips, on the same screen, with the same counts.
//!
//! **The result is not reversible**, and this tool is not seed splitting: the
//! final word's entropy comes from the flips rather than from the inputs, so
//! XORing the result back against one input does not return the other. See
//! [`crate::bip39::xor`].
//!
//! Both phrases are typed in full, final word and all, even though that word's
//! entropy is discarded. It is what makes the checksum checkable, and the
//! checksum is the only way the device can tell a mistyped phrase from a real
//! one.

use vstd::prelude::*;

use crate::action::Action;
use crate::bip39::{
    all_in_list, checks_out, indices_of, lemma_resolved_in_list, parse, parse_of, phrase_indices,
    phrase_words, resolve_of, xor, xor_indices, xor_of, Mnemonic, SeedLength,
};
use crate::bip39_properties::{lemma_built_phrase_parses, lemma_indices_of_phrase_words, spelled};
use crate::bip39_wordlist::COUNT;
use crate::flips::{binary_value, Flip, Flips};
use crate::generate::{flip_of, words_complete, words_empty};
use crate::keymap::key;
use crate::view::{pages_for, phrase_pages};
use crate::word_entry::{delete_step, key_step, WordEntry};
use crate::workflow::Outcome;

verus! {

/// Where the workflow stands.
pub enum Step {
    /// Before anything is typed: 12 or 24.
    Length { selected: SeedLength },
    /// Typing one of the two phrases. `invalid` marks a complete phrase whose
    /// final word does not match the rest; the words stay put so the user can
    /// back up to the one that is wrong.
    Words { invalid: bool },
    Coin,
    /// Derived on the way in rather than on every redraw, and held only while it
    /// is on screen: leaving this step drops it.
    Phrase { mnemonic: Mnemonic, page: usize },
}

pub struct Xor {
    /// Set by the first step, and what both entries and the flips are sized
    /// from.
    length: SeedLength,
    /// The two phrases as typed, kept for the life of the workflow rather than
    /// per step, so `Back` can walk all the way out one word at a time.
    first: WordEntry,
    second: WordEntry,
    /// Which of the two is being typed.
    typing: usize,
    /// Kept across visits to the coin screen, so the final word does not change
    /// under a user who has already written it down.
    flips: Flips,
    step: Step,
}

/// Whether the whole of `entry`, read as a phrase of `length`, passes its
/// checksum.
/// The label of the first phrase on the word screen.
pub const PHRASE_A: &'static str = "A";

/// The label of the second phrase on the word screen.
pub const PHRASE_B: &'static str = "B";

/// Shown when a phrase is complete but its final word does not match the rest.
/// It names the phrase rather than a word, because any one of them could be the
/// one mistyped.
pub const INVALID_TEXT: &'static str = "phrase does not check out";

pub open spec fn checks(length: SeedLength, entry: WordEntry) -> bool {
    parse_of(length, entry.accepted_words()) is Some
}

/// The phrase `entry` reads as.
pub open spec fn read_phrase(length: SeedLength, entry: WordEntry) -> Seq<Seq<char>> {
    phrase_words(parse_of(length, entry.accepted_words())->0)
}

/// The other length.
pub open spec fn other_length(length: SeedLength) -> SeedLength {
    match length {
        SeedLength::Words12 => SeedLength::Words24,
        SeedLength::Words24 => SeedLength::Words12,
    }
}

impl Xor {
    pub closed spec fn phrase_length(self) -> SeedLength {
        self.length
    }

    /// The first phrase as typed.
    pub closed spec fn first_entry(self) -> WordEntry {
        self.first
    }

    /// The second phrase as typed.
    pub closed spec fn second_entry(self) -> WordEntry {
        self.second
    }

    /// Which phrase is being typed: 0 for the first, 1 for the second.
    pub closed spec fn typing_index(self) -> int {
        self.typing as int
    }

    pub closed spec fn coin_flips(self) -> Flips {
        self.flips
    }

    pub closed spec fn step_now(self) -> Step {
        self.step
    }

    /// The first phrase for `index` 0, the second otherwise.
    pub open spec fn entry_at(self, index: int) -> WordEntry {
        if index == 0 {
            self.first_entry()
        } else {
            self.second_entry()
        }
    }

    /// The phrase being typed.
    pub open spec fn typed(self) -> WordEntry {
        self.entry_at(self.typing_index())
    }

    /// The workflow is consistent: both entries take whole phrases of the
    /// length, the flips are sized for it, the second phrase is typed only once
    /// the first checks out, and past the words both do — which is what lets
    /// the coin screen combine them without a failure to handle. A combined
    /// phrase on screen is always the XOR of the two and the flips.
    pub open spec fn wf(self) -> bool {
        let length = self.phrase_length();
        &&& self.first_entry().wf()
        &&& self.second_entry().wf()
        &&& self.first_entry().words_needed() == length.total_words()
        &&& self.second_entry().words_needed() == length.total_words()
        &&& self.coin_flips().flips_needed() == length.final_word_entropy_bits()
        &&& 0 <= self.typing_index() <= 1
        &&& self.typing_index() == 1 ==> checks(length, self.first_entry())
        &&& match self.step_now() {
            Step::Length { .. } => true,
            Step::Words { .. } => true,
            Step::Coin => {
                &&& self.typing_index() == 1
                &&& checks(length, self.second_entry())
            },
            Step::Phrase { mnemonic, page } => {
                &&& self.typing_index() == 1
                &&& checks(length, self.second_entry())
                &&& self.coin_flips()@.len() == self.coin_flips().flips_needed()
                &&& mnemonic.phrase_length() == length
                &&& mnemonic@ == phrase_words(
                    xor_of(
                        length,
                        read_phrase(length, self.first_entry()),
                        read_phrase(length, self.second_entry()),
                        binary_value(self.coin_flips()@) as u8,
                    ),
                )
                &&& page < pages_for(length.total_words() as nat)
            },
        }
    }

    /// Both entries empty and sized for `length`, no flips, the first phrase up.
    pub open spec fn starts_at(self, length: SeedLength) -> bool {
        &&& self.phrase_length() == length
        &&& words_empty(self.first_entry())
        &&& words_empty(self.second_entry())
        &&& !self.first_entry().refused()
        &&& !self.second_entry().refused()
        &&& self.typing_index() == 0
        &&& self.coin_flips()@ == Seq::<Flip>::empty()
    }

    pub fn new() -> (workflow: Self)
        ensures
            workflow.wf(),
            workflow.starts_at(SeedLength::Words12),
            workflow.step_now() == (Step::Length { selected: SeedLength::Words12 }),
    {
        let length = SeedLength::Words12;
        Self {
            length,
            first: WordEntry::full(length),
            second: WordEntry::full(length),
            typing: 0,
            flips: Flips::new(length),
            step: Step::Length { selected: length },
        }
    }

    /// Applies an action.
    pub fn press(&mut self, action: Action) -> (outcome: Outcome)
        requires
            old(self).wf(),
        ensures
            final(self).wf(),
            xor_step(*old(self), action, *final(self), outcome),
    {
        match self.step {
            Step::Length { selected } => self.press_length(action, selected),
            Step::Words { invalid } => self.press_words(action, invalid),
            Step::Coin => self.press_coin(action),
            Step::Phrase { mnemonic, page } => self.press_phrase(action, mnemonic, page),
        }
    }

    fn press_length(&mut self, action: Action, selected: SeedLength) -> (outcome: Outcome)
        requires
            old(self).wf(),
            old(self).step_now() == (Step::Length { selected }),
        ensures
            final(self).wf(),
            xor_step(*old(self), action, *final(self), outcome),
    {
        match action {
            Action::Back => Outcome::Exit,
            // Two entries, so either key is the other one: the wrap the menu
            // cursor has, with nothing in between.
            Action::Up | Action::Down => {
                let other = match selected {
                    SeedLength::Words12 => SeedLength::Words24,
                    SeedLength::Words24 => SeedLength::Words12,
                };
                self.step = Step::Length { selected: other };
                Outcome::Redraw
            },
            Action::Select => {
                self.start(selected);
                Outcome::Redraw
            },
            _ => Outcome::Unchanged,
        }
    }

    /// Sizes both entries and the flips to `length` and opens the first phrase.
    ///
    /// Also what makes leaving the picker and coming back forget whatever was
    /// typed at the old length, which it must: a 12-word entry holds words a
    /// 24-word phrase has no room for.
    fn start(&mut self, length: SeedLength)
        ensures
            final(self).wf(),
            final(self).starts_at(length),
            final(self).step_now() == (Step::Words { invalid: false }),
    {
        self.length = length;
        self.first = WordEntry::full(length);
        self.second = WordEntry::full(length);
        self.typing = 0;
        self.flips = Flips::new(length);
        self.step = Step::Words { invalid: false };
    }

    fn press_words(&mut self, action: Action, invalid: bool) -> (outcome: Outcome)
        requires
            old(self).wf(),
            old(self).step_now() == (Step::Words { invalid }),
        ensures
            final(self).wf(),
            xor_step(*old(self), action, *final(self), outcome),
    {
        // A refused phrase is complete: there is no letter to add and no word to
        // accept, so the only way on is back to the last word, which is where
        // the mistake has to be corrected.
        if invalid {
            if action != Action::Back {
                return Outcome::Unchanged;
            }
            self.step = Step::Words { invalid: false };
            self.delete_typed();
            return Outcome::Redraw;
        }
        let empty = if self.typing == 0 {
            self.first.is_empty()
        } else {
            self.second.is_empty()
        };
        if action == Action::Back && empty {
            // One step at a time, as `Back` is everywhere else: out of the
            // second phrase into the last word of the first, and out of the
            // first back to the length.
            if self.typing == 0 {
                self.step = Step::Length { selected: self.length };
            } else {
                self.typing = 0;
                self.first.delete();
            }
            return Outcome::Redraw;
        }
        let changed = if self.typing == 0 {
            self.first.handle_key(key(action))
        } else {
            self.second.handle_key(key(action))
        };
        let complete = if self.typing == 0 {
            self.first.is_complete()
        } else {
            self.second.is_complete()
        };
        if changed && complete {
            // The final word is read for its checksum alone — its entropy bits
            // are replaced by the flips — so this is the one chance to catch a
            // phrase that was typed wrong.
            let parsed = if self.typing == 0 {
                parse(self.length, self.first.accepted())
            } else {
                parse(self.length, self.second.accepted())
            };
            if parsed.is_none() {
                self.step = Step::Words { invalid: true };
            } else if self.typing == 0 {
                self.typing = 1;
            } else {
                self.step = Step::Coin;
            }
        }
        if changed {
            Outcome::Redraw
        } else {
            Outcome::Unchanged
        }
    }

    /// `*` on the phrase being typed.
    fn delete_typed(&mut self)
        requires
            old(self).typed().wf(),
        ensures
            final(self).typed().wf(),
            delete_step(old(self).typed(), final(self).typed()),
            final(self).typed().refused() == old(self).typed().refused(),
            final(self).typing_index() == old(self).typing_index(),
            final(self).phrase_length() == old(self).phrase_length(),
            final(self).coin_flips() == old(self).coin_flips(),
            final(self).step_now() == old(self).step_now(),
            old(self).typing_index() == 0 ==> final(self).second_entry() == old(
                self,
            ).second_entry(),
            old(self).typing_index() != 0 ==> final(self).first_entry() == old(
                self,
            ).first_entry(),
    {
        if self.typing == 0 {
            self.first.delete();
        } else {
            self.second.delete();
        }
    }

    /// Identical to the generate workflow's coin step, deliberately: the final
    /// word is derived the same way, so it is entered the same way.
    fn press_coin(&mut self, action: Action) -> (outcome: Outcome)
        requires
            old(self).wf(),
            old(self).step_now() == Step::Coin,
        ensures
            final(self).wf(),
            xor_step(*old(self), action, *final(self), outcome),
    {
        match action {
            Action::Heads => {
                if self.flips.record(Flip::Heads) {
                    Outcome::Redraw
                } else {
                    Outcome::Unchanged
                }
            },
            Action::Tails => {
                if self.flips.record(Flip::Tails) {
                    Outcome::Redraw
                } else {
                    Outcome::Unchanged
                }
            },
            // Backspace first, and step back only once there is nothing left to
            // take back.
            Action::Back => {
                if !self.flips.undo() {
                    self.reopen_last_word();
                }
                Outcome::Redraw
            },
            // Both phrases were read at the same length to get past the word
            // screen, and neither can change without going back through it, so
            // reading and combining them cannot fail here.
            Action::Confirm => match self.flips.entropy() {
                Some(entropy) => match (
                    parse(self.length, self.first.accepted()),
                    parse(self.length, self.second.accepted()),
                ) {
                    (Some(a), Some(b)) => match xor(&a, &b, entropy) {
                        Some(mnemonic) => {
                            self.step = Step::Phrase { mnemonic, page: 0 };
                            Outcome::Redraw
                        },
                        None => Outcome::Unchanged,
                    },
                    _ => Outcome::Unchanged,
                },
                None => Outcome::Unchanged,
            },
            _ => Outcome::Unchanged,
        }
    }

    fn press_phrase(&mut self, action: Action, mnemonic: Mnemonic, page: usize) -> (outcome:
        Outcome)
        requires
            old(self).wf(),
            old(self).step_now() == (Step::Phrase { mnemonic, page }),
        ensures
            final(self).wf(),
            xor_step(*old(self), action, *final(self), outcome),
    {
        let pages = phrase_pages(&mnemonic);
        match action {
            Action::Back => {
                self.reopen_last_word();
                Outcome::Redraw
            },
            // Wraps, as the menu cursor does: with two pages, either key is the
            // other page.
            Action::Left | Action::Right => {
                if pages > 1 {
                    let turned = if action == Action::Right {
                        (page + 1) % pages
                    } else {
                        (page + pages - 1) % pages
                    };
                    self.step = Step::Phrase { mnemonic, page: turned };
                    Outcome::Redraw
                } else {
                    Outcome::Unchanged
                }
            },
            _ => Outcome::Unchanged,
        }
    }

    /// Steps back from past the phrases to the last word of the second, open for
    /// editing.
    ///
    /// The first phrase is kept and the second is reopened at its last word
    /// rather than cleared: the user came back to change something, and losing
    /// two phrases they typed correctly is not that.
    fn reopen_last_word(&mut self)
        requires
            old(self).wf(),
            old(self).typing_index() == 1,
        ensures
            final(self).wf(),
            final(self).phrase_length() == old(self).phrase_length(),
            final(self).first_entry() == old(self).first_entry(),
            delete_step(old(self).second_entry(), final(self).second_entry()),
            final(self).second_entry().refused() == old(self).second_entry().refused(),
            final(self).typing_index() == 1,
            final(self).coin_flips() == old(self).coin_flips(),
            final(self).step_now() == (Step::Words { invalid: false }),
    {
        self.typing = 1;
        self.second.delete();
        self.step = Step::Words { invalid: false };
    }

    /// Which of the two phrases the word screen is reading, `"A"` for the first
    /// and `"B"` for the second, shown above the entry; `None` off the word
    /// screen.
    pub fn label(&self) -> (label: Option<&'static str>)
        ensures
            label == if self.step_now() is Words {
                Some(
                    if self.typing_index() == 0 {
                        PHRASE_A
                    } else {
                        PHRASE_B
                    },
                )
            } else {
                None
            },
    {
        match self.step {
            Step::Words { .. } => Some(
                if self.typing == 0 {
                    PHRASE_A
                } else {
                    PHRASE_B
                },
            ),
            _ => None,
        }
    }

    /// The message the word screen shows while the phrase just typed does not
    /// check out — [`INVALID_TEXT`] — and `None` otherwise.
    pub fn notice(&self) -> (notice: Option<&'static str>)
        ensures
            notice == if self.step_now() == (Step::Words { invalid: true }) {
                Some(INVALID_TEXT)
            } else {
                None
            },
    {
        match self.step {
            Step::Words { invalid } => if invalid {
                Some(INVALID_TEXT)
            } else {
                None
            },
            _ => None,
        }
    }

    /// What the panel shows for the workflow.
    pub fn view(&self) -> (view: crate::view::View<'_>)
        ensures
            match self.step_now() {
                Step::Length { selected } => view == (crate::view::View::SeedLengthPick {
                    selected,
                }),
                Step::Words { .. } => view matches crate::view::View::Words(words) && *words
                    == self.typed(),
                Step::Coin => view matches crate::view::View::Coin(flips) && *flips
                    == self.coin_flips(),
                Step::Phrase { mnemonic, page } => view matches crate::view::View::Phrase {
                    mnemonic: shown,
                    page: shown_page,
                } && *shown == mnemonic && shown_page == page,
            },
    {
        match &self.step {
            Step::Length { selected } => crate::view::View::SeedLengthPick { selected: *selected },
            Step::Words { .. } => {
                if self.typing == 0 {
                    crate::view::View::Words(&self.first)
                } else {
                    crate::view::View::Words(&self.second)
                }
            },
            Step::Coin => crate::view::View::Coin(&self.flips),
            Step::Phrase { mnemonic, page } => crate::view::View::Phrase {
                mnemonic,
                page: *page,
            },
        }
    }
}

/// The indices a phrase that checks out reads as are all in the list.
proof fn lemma_read_indices_in_list(length: SeedLength, entry: WordEntry)
    requires
        checks(length, entry),
    ensures
        all_in_list(parse_of(length, entry.accepted_words())->0),
        indices_of(read_phrase(length, entry)) == parse_of(length, entry.accepted_words())->0,
        read_phrase(length, entry).len() == length.total_words(),
{
    let words = entry.accepted_words();
    let indices = parse_of(length, words)->0;
    assert forall|k: int| 0 <= k < indices.len() implies #[trigger] indices[k] < COUNT by {
        assert(resolve_of(words[k]) is Some);
        lemma_resolved_in_list(words[k]);
    }
    lemma_indices_of_phrase_words(indices);
}

/// The combined phrase on screen is always one other wallets accept: it passes
/// its own checksum, and typed back in, word for word, it reads as the same
/// phrase.
pub proof fn lemma_shown_phrase_checks_out(workflow: Xor)
    requires
        workflow.wf(),
        workflow.step_now() is Phrase,
    ensures
        exists|indices: Seq<u16>|
            workflow.step_now()->mnemonic@ == phrase_words(indices) && checks_out(
                workflow.phrase_length(),
                indices,
            ) && parse_of(workflow.phrase_length(), spelled(indices)) == Some(indices),
{
    let length = workflow.phrase_length();
    let n = length.entered_words() as int;
    let extra = binary_value(workflow.coin_flips()@) as u8;
    lemma_read_indices_in_list(length, workflow.first_entry());
    lemma_read_indices_in_list(length, workflow.second_entry());
    let ia = indices_of(read_phrase(length, workflow.first_entry())).take(n);
    let ib = indices_of(read_phrase(length, workflow.second_entry())).take(n);
    let combined = xor_indices(ia, ib);
    assert forall|k: int| 0 <= k < combined.len() implies #[trigger] combined[k] < COUNT by {
        let x = ia[k];
        let y = ib[k];
        assert(x < 2048u16 && y < 2048u16 ==> (x ^ y) < 2048u16) by (bit_vector);
    }
    lemma_built_phrase_parses(length, combined, extra);
    let indices = phrase_indices(length, combined, extra);
    assert(workflow.step_now()->mnemonic@ == phrase_words(indices));
}

/// What `action` does to the workflow, and what it reports.
///
/// On the length picker `Up` and `Down` switch lengths, `Select` starts both
/// phrases afresh at the one picked, and `Back` leaves. On the words, every
/// action is its key applied to the phrase being typed, except `Back` with
/// that phrase empty, which steps out of the second phrase into the first, or
/// out of the first to the picker; a phrase completed by a key is read, and
/// moves on to the second phrase or the coin screen when it checks out, or is
/// held as refused, where only `Back` does anything, taking its last letter
/// back. The coin screen and the phrase are the generate workflow's, with the
/// result the XOR of the two phrases read, and `Back` reopening the second
/// phrase at its last word.
pub open spec fn xor_step(before: Xor, action: Action, after: Xor, outcome: Outcome) -> bool {
    let length = before.phrase_length();
    let flips = before.coin_flips()@;
    let unchanged = after.phrase_length() == length && after.first_entry()
        == before.first_entry() && after.second_entry() == before.second_entry()
        && after.typing_index() == before.typing_index() && after.coin_flips()
        == before.coin_flips() && after.step_now() == before.step_now();
    let reopened = after.phrase_length() == length && after.first_entry() == before.first_entry()
        && delete_step(before.second_entry(), after.second_entry())
        && after.second_entry().refused() == before.second_entry().refused()
        && after.typing_index() == 1 && after.coin_flips() == before.coin_flips()
        && after.step_now() == (Step::Words { invalid: false });
    match before.step_now() {
        Step::Length { selected } => match action {
            Action::Back => outcome == Outcome::Exit && unchanged,
            Action::Up | Action::Down => {
                &&& outcome == Outcome::Redraw
                &&& after.step_now() == (Step::Length { selected: other_length(selected) })
                &&& after.phrase_length() == length
                &&& after.first_entry() == before.first_entry()
                &&& after.second_entry() == before.second_entry()
                &&& after.typing_index() == before.typing_index()
                &&& after.coin_flips() == before.coin_flips()
            },
            Action::Select => {
                &&& outcome == Outcome::Redraw
                &&& after.starts_at(selected)
                &&& after.step_now() == (Step::Words { invalid: false })
            },
            _ => outcome == Outcome::Unchanged && unchanged,
        },
        Step::Words { invalid } => if invalid {
            if action == Action::Back {
                &&& outcome == Outcome::Redraw
                &&& after.phrase_length() == length
                &&& after.typing_index() == before.typing_index()
                &&& delete_step(before.typed(), after.typed())
                &&& after.typed().refused() == before.typed().refused()
                &&& (before.typing_index() == 0 ==> after.second_entry() == before.second_entry())
                &&& (before.typing_index() != 0 ==> after.first_entry() == before.first_entry())
                &&& after.coin_flips() == before.coin_flips()
                &&& after.step_now() == (Step::Words { invalid: false })
            } else {
                outcome == Outcome::Unchanged && unchanged
            }
        } else if action == Action::Back && words_empty(before.typed()) {
            &&& outcome == Outcome::Redraw
            &&& after.phrase_length() == length
            &&& after.coin_flips() == before.coin_flips()
            &&& after.second_entry() == before.second_entry()
            &&& if before.typing_index() == 0 {
                &&& after.first_entry() == before.first_entry()
                &&& after.typing_index() == 0
                &&& after.step_now() == (Step::Length { selected: length })
            } else {
                &&& delete_step(before.first_entry(), after.first_entry())
                &&& after.first_entry().refused() == before.first_entry().refused()
                &&& after.typing_index() == 0
                &&& after.step_now() == before.step_now()
            }
        } else {
            let changed = outcome == Outcome::Redraw;
            let typed = after.entry_at(before.typing_index());
            let done = changed && words_complete(typed);
            &&& outcome != Outcome::Exit
            &&& after.phrase_length() == length
            &&& after.coin_flips() == before.coin_flips()
            &&& key_step(before.typed(), key(action), typed, changed)
            &&& (before.typing_index() == 0 ==> after.second_entry() == before.second_entry())
            &&& (before.typing_index() != 0 ==> after.first_entry() == before.first_entry())
            &&& if !done {
                after.typing_index() == before.typing_index() && after.step_now()
                    == before.step_now()
            } else if !checks(length, typed) {
                after.typing_index() == before.typing_index() && after.step_now() == (Step::Words {
                    invalid: true,
                })
            } else if before.typing_index() == 0 {
                after.typing_index() == 1 && after.step_now() == before.step_now()
            } else {
                after.typing_index() == 1 && after.step_now() == Step::Coin
            }
        },
        Step::Coin => match action {
            Action::Heads | Action::Tails => {
                &&& after.phrase_length() == length
                &&& after.first_entry() == before.first_entry()
                &&& after.second_entry() == before.second_entry()
                &&& after.typing_index() == before.typing_index()
                &&& after.step_now() == Step::Coin
                &&& after.coin_flips().flips_needed() == before.coin_flips().flips_needed()
                &&& if flips.len() < before.coin_flips().flips_needed() {
                    after.coin_flips()@ == flips.push(flip_of(action)) && outcome
                        == Outcome::Redraw
                } else {
                    after.coin_flips()@ == flips && outcome == Outcome::Unchanged
                }
            },
            Action::Back => {
                &&& outcome == Outcome::Redraw
                &&& if flips.len() > 0 {
                    &&& after.phrase_length() == length
                    &&& after.first_entry() == before.first_entry()
                    &&& after.second_entry() == before.second_entry()
                    &&& after.typing_index() == before.typing_index()
                    &&& after.coin_flips().flips_needed() == before.coin_flips().flips_needed()
                    &&& after.coin_flips()@ == flips.drop_last()
                    &&& after.step_now() == Step::Coin
                } else {
                    reopened
                }
            },
            Action::Confirm => if flips.len() == before.coin_flips().flips_needed() {
                &&& outcome == Outcome::Redraw
                &&& after.phrase_length() == length
                &&& after.first_entry() == before.first_entry()
                &&& after.second_entry() == before.second_entry()
                &&& after.typing_index() == before.typing_index()
                &&& after.coin_flips() == before.coin_flips()
                &&& after.step_now() matches Step::Phrase { page, .. }
                &&& page == 0
            } else {
                outcome == Outcome::Unchanged && unchanged
            },
            _ => outcome == Outcome::Unchanged && unchanged,
        },
        Step::Phrase { mnemonic, page } => {
            let pages = pages_for(length.total_words() as nat);
            match action {
                Action::Back => outcome == Outcome::Redraw && reopened,
                Action::Left | Action::Right => if pages > 1 {
                    &&& outcome == Outcome::Redraw
                    &&& after.phrase_length() == length
                    &&& after.first_entry() == before.first_entry()
                    &&& after.second_entry() == before.second_entry()
                    &&& after.typing_index() == before.typing_index()
                    &&& after.coin_flips() == before.coin_flips()
                    &&& after.step_now() == (Step::Phrase {
                        mnemonic,
                        page: (if action == Action::Right {
                            (page + 1) % (pages as int)
                        } else {
                            (page + pages - 1) % (pages as int)
                        }) as usize,
                    })
                } else {
                    outcome == Outcome::Unchanged && unchanged
                },
                _ => outcome == Outcome::Unchanged && unchanged,
            }
        },
    }
}

} // verus!
