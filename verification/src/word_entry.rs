//! State for the recovery-phrase entry screen.
//!
//! The keypad has no letter keys, so words are spelled out by walking a cursor
//! along the alphabet and confirming one letter at a time:
//!
//! | Key | Action                                             |
//! | --- | -------------------------------------------------- |
//! | `4` | move the cursor to the previous usable letter       |
//! | `6` | move the cursor to the next usable letter           |
//! | `5` | append the selected letter to the current word      |
//! | `*` | delete the last letter, or reopen the last word     |
//! | `#` | accept the current word and start the next one      |
//!
//! Only letters that still lead to a BIP-39 word are usable: `4` and `6` skip
//! the rest and `5` will not add them, so a spelling that matches nothing cannot
//! be typed in the first place. What `#` still has to reject is a prefix several
//! words share — see [`WordEntry::rejected`].
//!
//! Pure state — no display or GPIO — so the screen code can render it and the
//! main loop can drive it without either knowing about the other.

use vstd::prelude::*;
use vstd::string::StringSliceAdditionalSpecFns;

use crate::bip39::{entered_bytes, resolve, resolve_of, SeedLength, MAX_WORD_COUNT_TOTAL};
use crate::bip39_properties::{
    lemma_every_word_resolves_to_itself, lemma_resolve_ignores_case, same_ignoring_case,
};
use crate::bip39_wordlist::{
    continues_with, lemma_list_word_bytes, lemma_words_are_lowercase_letters, next_letters,
    next_letters_of, word_bytes, wordlist, LetterSet, COUNT, LETTERS,
};
use crate::bounded::{
    word_as_str, word_bytes_of, word_len, word_list_as_slice, word_list_items, word_list_new,
    word_list_pop, word_list_push, word_new, word_pop, word_push, Word, WordList,
};
use crate::letter_set::{walk, walk_distance};
use crate::needle::needle_of;

pub use crate::bip39_wordlist::MAX_WORD_LEN;

verus! {

/// Letters the cursor walks, in order.
pub const ALPHABET_TEXT: &'static str = "ABCDEFGHIJKLMNOPQRSTUVWXYZ";

/// The same letters as bytes: they are all ASCII, so byte indexing is character
/// indexing, which is what the cursor wants.
pub const ALPHABET: [u8; 26] = [
    65, 66, 67, 68, 69, 70, 71, 72, 73, 74, 75, 76, 77, 78, 79, 80, 81, 82, 83, 84, 85, 86, 87,
    88, 89, 90,
];

/// Words in a phrase: every word of a 12-word phrase but the derived last.
pub const WORD_COUNT: usize = 11;

pub const KEY_PREV: char = '4';
pub const KEY_NEXT: char = '6';
pub const KEY_ADD: char = '5';
pub const KEY_DELETE: char = '*';
pub const KEY_ACCEPT: char = '#';
pub const KEY_HEADS: char = '1';
pub const KEY_TAILS: char = '0';

/// The letter at position `index` of [`ALPHABET`].
pub open spec fn alphabet_letter(index: int) -> u8 {
    (65 + index) as u8
}

/// Word `i` of the list in upper case, as the entry screen stores it.
pub open spec fn upper_word(i: int) -> Seq<u8> {
    Seq::new(word_bytes(i).len(), |k: int| (word_bytes(i)[k] - 32) as u8)
}

/// Whether `word` is some word of the list in upper case.
pub open spec fn is_upper_word(word: Seq<u8>) -> bool {
    exists|i: int| 0 <= i < COUNT && word == upper_word(i)
}

/// Whether every byte is an upper-case ASCII letter.
pub open spec fn all_upper(bytes: Seq<u8>) -> bool {
    forall|k: int| 0 <= k < bytes.len() ==> 65 <= #[trigger] bytes[k] <= 90
}

/// The letters on offer after `current`, with `accepted` of `limit` words in:
/// none once the phrase is complete, else those that continue `current`
/// towards some word.
pub open spec fn offered_after(current: Seq<u8>, accepted: nat, limit: nat) -> Set<int> {
    if accepted == limit {
        Set::empty()
    } else {
        next_letters_of(current)
    }
}

/// Whether `letter` is the lowest letter of `letters`.
pub open spec fn is_lowest(letters: Set<int>, letter: int) -> bool {
    &&& 0 <= letter < LETTERS
    &&& letters.contains(letter)
    &&& forall|j: int| 0 <= j < letter ==> !letters.contains(j)
}

/// The lowest letter of `letters`, or 0 when there is none: where the cursor
/// lands after the spelling changes.
pub open spec fn lowest_letter(letters: Set<int>) -> int {
    if exists|i: int| #[trigger] is_lowest(letters, i) {
        choose|i: int| #[trigger] is_lowest(letters, i)
    } else {
        0
    }
}

/// Whether the cursor walking from `from` in direction `forwards` stops first
/// at `to`, skipping letters not in `letters`.
pub open spec fn walks_to(letters: Set<int>, from: int, forwards: bool, to: int) -> bool {
    &&& letters.contains(to)
    &&& forall|j: int|
        1 <= j < walk_distance(from, to, forwards) ==> !letters.contains(
            #[trigger] walk(from, j, forwards),
        )
}

pub struct WordEntry {
    accepted: WordList,
    current: Word,
    cursor: usize,
    /// Letters that extend [`Self::current`] towards a real word. Derived from
    /// `current`, so every change to it goes through [`Self::refresh`].
    reachable: LetterSet,
    rejected: bool,
    /// Words the phrase takes.
    limit: usize,
}

impl Default for WordEntry {
    fn default() -> (entry: Self)
        ensures
            entry.wf(),
            entry.accepted_words() == Seq::<Seq<u8>>::empty(),
            entry.current_letters() == Seq::<u8>::empty(),
            !entry.refused(),
            entry.words_needed() == WORD_COUNT,
    {
        Self::new()
    }
}

impl WordEntry {
    /// The words accepted so far, oldest first.
    pub closed spec fn accepted_words(self) -> Seq<Seq<u8>> {
        entered_bytes(word_list_items(self.accepted))
    }

    /// The word being spelled out.
    pub closed spec fn current_letters(self) -> Seq<u8> {
        word_bytes_of(self.current)
    }

    /// Where the cursor stands in the alphabet.
    pub closed spec fn cursor_index(self) -> int {
        self.cursor as int
    }

    /// The letters on offer.
    pub closed spec fn offered(self) -> Set<int> {
        self.reachable@
    }

    /// Whether the last `#` was refused.
    pub closed spec fn refused(self) -> bool {
        self.rejected
    }

    /// Words the phrase takes.
    pub closed spec fn words_needed(self) -> nat {
        self.limit as nat
    }

    /// What holds of the words whatever the cursor: the phrase has room for
    /// them, each accepted word is a word of the list in upper case, the word
    /// being spelled is upper-case letters no longer than any word, and nothing
    /// is being spelled once every word is in.
    pub open spec fn words_hold(self) -> bool {
        &&& 0 < self.words_needed() <= MAX_WORD_COUNT_TOTAL
        &&& self.accepted_words().len() <= self.words_needed()
        &&& self.accepted_words().len() == self.words_needed() ==> self.current_letters().len()
            == 0
        &&& forall|k: int|
            0 <= k < self.accepted_words().len() ==> is_upper_word(
                #[trigger] self.accepted_words()[k],
            )
        &&& all_upper(self.current_letters())
        &&& self.current_letters().len() <= MAX_WORD_LEN
    }

    /// The entry is consistent: the words hold, the letters on offer are those
    /// that continue the current word, and the cursor is on one of them, or at
    /// the start when there is none.
    pub open spec fn wf(self) -> bool {
        &&& self.words_hold()
        &&& self.offered() == offered_after(
            self.current_letters(),
            self.accepted_words().len(),
            self.words_needed(),
        )
        &&& 0 <= self.cursor_index() < LETTERS
        &&& (self.offered().contains(self.cursor_index()) || (self.offered() == Set::<int>::empty()
            && self.cursor_index() == 0))
    }

    /// Whether `self` holds the same words, cursor and refusal as `other`.
    pub open spec fn same_as(self, other: Self) -> bool {
        &&& self.accepted_words() == other.accepted_words()
        &&& self.current_letters() == other.current_letters()
        &&& self.cursor_index() == other.cursor_index()
        &&& self.words_needed() == other.words_needed()
    }

    /// An empty entry for an 11-word phrase: every word of a 12-word phrase
    /// but the last.
    pub fn new() -> (entry: Self)
        ensures
            entry.wf(),
            entry.accepted_words() == Seq::<Seq<u8>>::empty(),
            entry.current_letters() == Seq::<u8>::empty(),
            entry.cursor_index() == lowest_letter(entry.offered()),
            !entry.refused(),
            entry.words_needed() == WORD_COUNT,
    {
        Self::with_limit(WORD_COUNT)
    }

    /// An empty entry for the words typed of a phrase of `length`: every one but
    /// the last, which is derived.
    pub fn for_length(length: SeedLength) -> (entry: Self)
        ensures
            entry.wf(),
            entry.accepted_words() == Seq::<Seq<u8>>::empty(),
            entry.current_letters() == Seq::<u8>::empty(),
            entry.cursor_index() == lowest_letter(entry.offered()),
            !entry.refused(),
            entry.words_needed() == length.entered_words(),
    {
        Self::with_limit(length.entered_words())
    }

    /// An empty entry for a whole phrase of `length`, last word and all, as
    /// typed back in to be checked.
    pub fn full(length: SeedLength) -> (entry: Self)
        ensures
            entry.wf(),
            entry.accepted_words() == Seq::<Seq<u8>>::empty(),
            entry.current_letters() == Seq::<u8>::empty(),
            entry.cursor_index() == lowest_letter(entry.offered()),
            !entry.refused(),
            entry.words_needed() == length.total_words(),
    {
        Self::with_limit(length.total_words())
    }

    fn with_limit(limit: usize) -> (entry: Self)
        requires
            0 < limit <= MAX_WORD_COUNT_TOTAL,
        ensures
            entry.wf(),
            entry.accepted_words() == Seq::<Seq<u8>>::empty(),
            entry.current_letters() == Seq::<u8>::empty(),
            entry.cursor_index() == lowest_letter(entry.offered()),
            !entry.refused(),
            entry.words_needed() == limit,
    {
        let mut entry = Self {
            accepted: word_list_new(),
            current: word_new(),
            cursor: 0,
            reachable: LetterSet::empty(),
            rejected: false,
            limit,
        };
        proof {
            assert(entry.accepted_words() =~= Seq::<Seq<u8>>::empty());
        }
        entry.refresh();
        entry
    }

    /// The letter `5` would append, or `None` when there is none to offer: the
    /// current spelling is already as long as any word that starts with it, or
    /// the phrase is finished.
    pub fn selected(&self) -> (letter: Option<char>)
        requires
            self.wf(),
        ensures
            letter == if self.offered().contains(self.cursor_index()) {
                Some(alphabet_letter(self.cursor_index()) as char)
            } else {
                None
            },
    {
        match self.cursor() {
            Some(cursor) => Some(ALPHABET[cursor] as char),
            None => None,
        }
    }

    /// Position of the cursor within [`ALPHABET`], or `None` when no letter is
    /// selectable.
    pub fn cursor(&self) -> (cursor: Option<usize>)
        requires
            self.wf(),
        ensures
            cursor == if self.offered().contains(self.cursor_index()) {
                Some(self.cursor_index() as usize)
            } else {
                None
            },
    {
        if self.reachable.contains(self.cursor) {
            Some(self.cursor)
        } else {
            None
        }
    }

    /// Letters that can still be added. The rest are dead ends and are shown as
    /// unavailable rather than silently doing nothing.
    pub fn reachable(&self) -> (letters: LetterSet)
        ensures
            letters@ == self.offered(),
    {
        self.reachable
    }

    /// Whether the last `#` was refused.
    ///
    /// Because unreachable letters cannot be typed, this only ever means the
    /// spelling so far is shared by several words — `AB`, say, which starts
    /// `able` and `about` among others. It is not that the word is unknown, so
    /// the way out is to keep spelling rather than to start over. Cleared by the
    /// next keypress.
    pub fn rejected(&self) -> (rejected: bool)
        ensures
            rejected == self.refused(),
    {
        self.rejected
    }

    /// The word being spelled out, which is empty right after a word is
    /// accepted.
    pub fn current(&self) -> (current: &str)
        ensures
            current.spec_bytes() == self.current_letters(),
    {
        word_as_str(&self.current)
    }

    /// Words accepted so far, oldest first.
    pub fn accepted(&self) -> (accepted: &[Word])
        ensures
            entered_bytes(accepted@) == self.accepted_words(),
    {
        word_list_as_slice(&self.accepted)
    }

    /// 1-based number of the word being entered, for display. Stays at the
    /// phrase's word count once the phrase is complete rather than running past
    /// it.
    pub fn word_number(&self) -> (number: usize)
        requires
            self.wf(),
        ensures
            number == if self.accepted_words().len() < self.words_needed() {
                self.accepted_words().len() + 1
            } else {
                self.words_needed()
            },
    {
        let count = self.accepted_count();
        if count + 1 < self.limit {
            count + 1
        } else {
            self.limit
        }
    }

    /// Words the phrase takes, for the progress line.
    pub fn word_count(&self) -> (count: usize)
        ensures
            count == self.words_needed(),
    {
        self.limit
    }

    /// Whether every word of the phrase is in.
    pub fn is_complete(&self) -> (complete: bool)
        requires
            self.wf(),
        ensures
            complete == (self.accepted_words().len() == self.words_needed()),
    {
        self.accepted_count() == self.limit
    }

    /// Whether nothing has been typed at all: no word accepted and no letter of
    /// the next one.
    pub fn is_empty(&self) -> (empty: bool)
        requires
            self.wf(),
        ensures
            empty == (self.accepted_words().len() == 0 && self.current_letters().len() == 0),
    {
        self.accepted_count() == 0 && word_len(&self.current) == 0
    }

    fn accepted_count(&self) -> (count: usize)
        requires
            self.wf(),
        ensures
            count == self.accepted_words().len(),
    {
        word_list_as_slice(&self.accepted).len()
    }

    /// Applies a keypress. Returns whether anything changed, so the caller can
    /// skip the (full-screen, and therefore slow) redraw when it hasn't —
    /// pressing `5` against a dead-end letter, say.
    pub fn handle_key(&mut self, key: char) -> (changed: bool)
        requires
            old(self).wf(),
        ensures
            final(self).wf(),
            key_step(*old(self), key, *final(self), changed),
    {
        // Any press clears a standing rejection, so the message never outlives
        // the word it was about. Counts as a change even when the key does
        // nothing else, because the screen still has to repaint without it.
        let was_rejected = self.rejected;
        self.rejected = false;

        let changed = if key == KEY_PREV {
            self.move_cursor(false)
        } else if key == KEY_NEXT {
            self.move_cursor(true)
        } else if key == KEY_ADD {
            if self.reachable.contains(self.cursor) {
                self.add_selected();
                true
            } else {
                false
            }
        } else if key == KEY_DELETE {
            self.delete()
        } else if key == KEY_ACCEPT {
            if !self.is_complete() && word_len(&self.current) != 0 {
                // Only real BIP-39 words can be accepted: the phrase is built by
                // packing each word's index in the wordlist, so anything not in
                // the list has no index to pack. A unique prefix is enough and
                // is completed here, so the accepted word is always the whole
                // one even when only four letters were typed.
                if !self.accept_current() {
                    self.rejected = true;
                }
                true
            } else {
                false
            }
        } else {
            false
        };

        changed || was_rejected
    }

    /// Appends the letter under the cursor, which is on offer.
    fn add_selected(&mut self)
        requires
            old(self).wf(),
            old(self).offered().contains(old(self).cursor_index()),
        ensures
            final(self).wf(),
            final(self).accepted_words() == old(self).accepted_words(),
            final(self).current_letters() == old(self).current_letters().push(
                alphabet_letter(old(self).cursor_index()),
            ),
            final(self).cursor_index() == lowest_letter(final(self).offered()),
            final(self).refused() == old(self).refused(),
            final(self).words_needed() == old(self).words_needed(),
    {
        let ghost before = self.current_letters();
        proof {
            // A reachable letter is one some longer word continues with, and
            // every word fits, so there is always room for it.
            let letter = self.cursor_index();
            let needle = needle_of(before)->0;
            let i = choose|i: int| 0 <= i < COUNT && continues_with(needle, i, letter);
            lemma_words_are_lowercase_letters();
            lemma_list_word_bytes(wordlist()[i]);
            assert(word_bytes(i).len() == wordlist()[i].len());
        }
        let letter = ALPHABET[self.cursor];
        let pushed = word_push(&mut self.current, letter);
        proof {
            assert(pushed);
            assert forall|k: int| 0 <= k < self.current_letters().len() implies 65
                <= #[trigger] self.current_letters()[k] <= 90 by {
                if k < before.len() {
                    assert(self.current_letters()[k] == before[k]);
                }
            }
        }
        self.refresh();
    }

    /// Backspace that keeps going past the start of a word: with nothing left
    /// to delete it reopens the previous word, which is the only way to correct
    /// one that has already been accepted.
    pub fn delete(&mut self) -> (changed: bool)
        requires
            old(self).wf(),
        ensures
            final(self).wf(),
            final(self).refused() == old(self).refused(),
            delete_step(*old(self), *final(self)),
            changed == (old(self).current_letters().len() > 0 || old(self).accepted_words().len()
                > 0),
    {
        let ghost before = self.current_letters();
        let ghost words_before = self.accepted_words();
        proof {
            assert forall|k: int| 0 <= k < before.len() implies #[trigger] before[k] < 128 by {
                assert(65 <= before[k] <= 90);
            }
        }
        match word_pop(&mut self.current) {
            Some(_) => {
                proof {
                    assert forall|k: int| 0 <= k < self.current_letters().len() implies 65
                        <= #[trigger] self.current_letters()[k] <= 90 by {
                        assert(self.current_letters()[k] == before[k]);
                    }
                }
            },
            None => {
                let ghost items = word_list_items(self.accepted);
                match word_list_pop(&mut self.accepted) {
                    Some(word) => {
                        self.current = word;
                        proof {
                            assert(self.accepted_words() =~= words_before.drop_last());
                            assert(word_bytes_of(word) == words_before.last());
                            lemma_upper_word_shape(words_before.last());
                            assert forall|k: int| 0 <= k < self.accepted_words().len() implies is_upper_word(
                                #[trigger] self.accepted_words()[k],
                            ) by {
                                assert(self.accepted_words()[k] == words_before[k]);
                            }
                        }
                    },
                    None => {
                        return false;
                    },
                }
            },
        }
        self.refresh();
        true
    }

    /// Resolves the word being spelled and accepts it in full, upper case, or
    /// leaves everything as it was when it does not resolve.
    fn accept_current(&mut self) -> (accepted: bool)
        requires
            old(self).wf(),
            old(self).accepted_words().len() < old(self).words_needed(),
        ensures
            accepted == resolve_of(old(self).current_letters()) is Some,
            final(self).refused() == old(self).refused(),
            final(self).words_needed() == old(self).words_needed(),
            final(self).wf(),
            accepted ==> {
                &&& final(self).accepted_words() == old(self).accepted_words().push(
                    upper_word(resolve_of(old(self).current_letters())->0),
                )
                &&& final(self).current_letters() == Seq::<u8>::empty()
                &&& final(self).cursor_index() == lowest_letter(final(self).offered())
            },
            !accepted ==> final(self).same_as(*old(self)),
    {
        let word = match resolve(word_as_str(&self.current)) {
            Some(word) => word,
            None => {
                return false;
            },
        };
        let ghost i = resolve_of(self.current_letters())->0;
        let ghost upper = upper_word(i);
        let bytes = word.as_bytes();
        proof {
            crate::bip39::lemma_resolved_in_list(self.current_letters());
            lemma_words_are_lowercase_letters();
            lemma_list_word_bytes(wordlist()[i]);
            assert(bytes@ == word_bytes(i));
        }
        let mut upper_case = word_new();
        let mut k: usize = 0;
        while k < bytes.len()
            invariant
                bytes@ == word_bytes(i),
                upper == upper_word(i),
                0 <= i < COUNT,
                bytes@.len() <= MAX_WORD_LEN,
                forall|m: int| 0 <= m < bytes@.len() ==> 97 <= #[trigger] bytes@[m] <= 122,
                k <= bytes@.len(),
                word_bytes_of(upper_case) == upper.take(k as int),
            decreases bytes@.len() - k,
        {
            let pushed = word_push(&mut upper_case, bytes[k] - 32);
            proof {
                assert(pushed);
                assert(upper.take(k as int).push((bytes@[k as int] - 32) as u8) =~= upper.take(
                    k as int + 1,
                ));
            }
            k = k + 1;
        }
        proof {
            assert(upper.take(k as int) =~= upper);
        }
        let ghost words_before = self.accepted_words();
        let pushed = word_list_push(&mut self.accepted, upper_case);
        self.current = word_new();
        proof {
            assert(pushed);
            assert(self.accepted_words() =~= words_before.push(upper));
            assert forall|m: int| 0 <= m < self.accepted_words().len() implies is_upper_word(
                #[trigger] self.accepted_words()[m],
            ) by {
                if m < words_before.len() {
                    assert(self.accepted_words()[m] == words_before[m]);
                } else {
                    assert(self.accepted_words()[m] == upper_word(i));
                }
            }
        }
        self.refresh();
        true
    }

    /// Moves to the next letter on offer in the given direction, skipping the
    /// dead ends in between.
    ///
    /// Reports no change when the cursor stays put — there is one reachable
    /// letter, or none — which spares the caller a redraw that would look
    /// identical.
    fn move_cursor(&mut self, forwards: bool) -> (moved: bool)
        requires
            old(self).wf(),
        ensures
            final(self).wf(),
            final(self).accepted_words() == old(self).accepted_words(),
            final(self).current_letters() == old(self).current_letters(),
            final(self).refused() == old(self).refused(),
            final(self).words_needed() == old(self).words_needed(),
            if old(self).offered() == Set::<int>::empty() {
                final(self).cursor_index() == old(self).cursor_index()
            } else {
                walks_to(
                    old(self).offered(),
                    old(self).cursor_index(),
                    forwards,
                    final(self).cursor_index(),
                )
            },
            moved == (final(self).cursor_index() != old(self).cursor_index()),
    {
        let step = if forwards {
            self.reachable.next_after(self.cursor)
        } else {
            self.reachable.prev_before(self.cursor)
        };
        match step {
            Some(next) => {
                proof {
                    self.reachable.lemma_members_are_letters();
                }
                if next != self.cursor {
                    self.cursor = next;
                    true
                } else {
                    false
                }
            },
            None => false,
        }
    }

    /// Recomputes what can follow the current spelling, and puts the cursor on
    /// the first of those letters.
    ///
    /// The cursor has to move: the letter it was on is usually a dead end under
    /// the new spelling. Landing on the lowest one keeps it somewhere
    /// predictable, which for an empty word is `A`.
    fn refresh(&mut self)
        requires
            old(self).words_hold(),
        ensures
            final(self).wf(),
            final(self).accepted_words() == old(self).accepted_words(),
            final(self).current_letters() == old(self).current_letters(),
            final(self).refused() == old(self).refused(),
            final(self).words_needed() == old(self).words_needed(),
            final(self).cursor_index() == lowest_letter(final(self).offered()),
    {
        self.reachable = if self.is_full() {
            LetterSet::empty()
        } else {
            next_letters(word_as_str(&self.current))
        };
        self.cursor = match self.reachable.first() {
            Some(first) => {
                proof {
                    self.reachable.lemma_members_are_letters();
                    assert(is_lowest(self.reachable@, first as int));
                    let c = choose|c: int| #[trigger] is_lowest(self.reachable@, c);
                    assert(is_lowest(self.reachable@, c));
                    assert(c == first) by {
                        if c < first {
                            assert(!self.reachable@.contains(c));
                        } else if first < c {
                            assert(!self.reachable@.contains(first as int));
                        }
                    }
                }
                first
            },
            None => {
                proof {
                    assert(!exists|c: int| #[trigger] is_lowest(self.reachable@, c));
                }
                0
            },
        };
    }

    fn is_full(&self) -> (full: bool)
        requires
            self.words_hold(),
        ensures
            full == (self.accepted_words().len() == self.words_needed()),
    {
        word_list_as_slice(&self.accepted).len() == self.limit
    }
}

/// What `key` does to an entry, and whether it reports a change.
///
/// `4` and `6` walk the cursor over the letters on offer; `5` adds the one under
/// it; `*` is [`delete_step`]; `#` accepts the word being spelled once it
/// resolves, completed to the whole word in upper case, and flags the entry
/// refused when it does not. Any key clears a standing refusal, and that alone
/// counts as a change.
pub open spec fn key_step(before: WordEntry, key: char, after: WordEntry, changed: bool) -> bool {
    &&& after.words_needed() == before.words_needed()
    &&& (key == KEY_PREV || key == KEY_NEXT ==> {
        &&& after.accepted_words() == before.accepted_words()
        &&& after.current_letters() == before.current_letters()
        &&& !after.refused()
        &&& if before.offered() == Set::<int>::empty() {
            after.cursor_index() == before.cursor_index()
        } else {
            walks_to(before.offered(), before.cursor_index(), key == KEY_NEXT, after.cursor_index())
        }
        &&& changed == (after.cursor_index() != before.cursor_index() || before.refused())
    })
    &&& (key == KEY_ADD ==> {
        &&& after.accepted_words() == before.accepted_words()
        &&& !after.refused()
        &&& if before.offered().contains(before.cursor_index()) {
            &&& after.current_letters() == before.current_letters().push(
                alphabet_letter(before.cursor_index()),
            )
            &&& after.cursor_index() == lowest_letter(after.offered())
            &&& changed
        } else {
            &&& after.same_as(before)
            &&& changed == before.refused()
        }
    })
    &&& (key == KEY_DELETE ==> {
        &&& !after.refused()
        &&& delete_step(before, after)
        &&& changed == (before.current_letters().len() > 0 || before.accepted_words().len() > 0
            || before.refused())
    })
    &&& (key == KEY_ACCEPT ==> {
        if before.accepted_words().len() < before.words_needed()
            && before.current_letters().len() > 0 {
            &&& changed
            &&& match resolve_of(before.current_letters()) {
                Some(i) => {
                    &&& after.accepted_words() == before.accepted_words().push(upper_word(i))
                    &&& after.current_letters() == Seq::<u8>::empty()
                    &&& after.cursor_index() == lowest_letter(after.offered())
                    &&& !after.refused()
                },
                None => {
                    &&& after.same_as(before)
                    &&& after.refused()
                },
            }
        } else {
            &&& after.same_as(before)
            &&& !after.refused()
            &&& changed == before.refused()
        }
    })
    &&& (key != KEY_PREV && key != KEY_NEXT && key != KEY_ADD && key != KEY_DELETE && key
        != KEY_ACCEPT ==> {
        &&& after.same_as(before)
        &&& !after.refused()
        &&& changed == before.refused()
    })
}

/// What `*` does to the words: takes the last letter back, or with none left
/// reopens the last accepted word, or with nothing typed at all does nothing.
pub open spec fn delete_step(before: WordEntry, after: WordEntry) -> bool {
    &&& after.words_needed() == before.words_needed()
    &&& if before.current_letters().len() > 0 {
        &&& after.accepted_words() == before.accepted_words()
        &&& after.current_letters() == before.current_letters().drop_last()
        &&& after.cursor_index() == lowest_letter(after.offered())
    } else if before.accepted_words().len() > 0 {
        &&& after.accepted_words() == before.accepted_words().drop_last()
        &&& after.current_letters() == before.accepted_words().last()
        &&& after.cursor_index() == lowest_letter(after.offered())
    } else {
        &&& after.accepted_words() == before.accepted_words()
        &&& after.current_letters() == before.current_letters()
        &&& after.cursor_index() == before.cursor_index()
    }
}

/// A word of the list in upper case is upper-case letters, no longer than any
/// word.
proof fn lemma_upper_word_shape(word: Seq<u8>)
    requires
        is_upper_word(word),
    ensures
        all_upper(word),
        word.len() <= MAX_WORD_LEN,
{
    let i = choose|i: int| 0 <= i < COUNT && word == upper_word(i);
    lemma_words_are_lowercase_letters();
    lemma_list_word_bytes(wordlist()[i]);
    assert forall|k: int| 0 <= k < word.len() implies 65 <= #[trigger] word[k] <= 90 by {
        assert('a' <= wordlist()[i][k] <= 'z');
        assert(word_bytes(i)[k] == wordlist()[i][k] as u8);
    }
}

/// Skipping dead-end letters never puts a word out of reach: part way through
/// spelling any word of the list in upper case, its next letter is on offer.
pub proof fn lemma_every_word_stays_reachable(i: int, typed: int)
    requires
        0 <= i < COUNT,
        0 <= typed < word_bytes(i).len(),
    ensures
        next_letters_of(upper_word(i).take(typed)).contains(word_bytes(i)[typed] - 97),
{
    lemma_words_are_lowercase_letters();
    lemma_list_word_bytes(wordlist()[i]);
    let prefix = upper_word(i).take(typed);
    let lower = word_bytes(i).take(typed);
    assert forall|k: int| 0 <= k < prefix.len() implies crate::needle::is_ascii_letter(
        #[trigger] prefix[k],
    ) && crate::needle::ascii_lower(prefix[k]) == lower[k] by {
        assert('a' <= wordlist()[i][k] <= 'z');
        assert(word_bytes(i)[k] == wordlist()[i][k] as u8);
    }
    assert(needle_of(prefix) == Some(lower)) by {
        assert(Seq::new(prefix.len(), |k: int| crate::needle::ascii_lower(prefix[k])) =~= lower);
    }
    assert('a' <= wordlist()[i][typed] <= 'z');
    assert(word_bytes(i)[typed] == wordlist()[i][typed] as u8);
    assert(continues_with(lower, i, word_bytes(i)[typed] - 97));
}

/// Every word the entry accepts resolves back to the word of the list it
/// spells, so the accepted words always complete a phrase.
pub proof fn lemma_accepted_words_resolve(i: int)
    requires
        0 <= i < COUNT,
    ensures
        resolve_of(upper_word(i)) == Some(i),
{
    lemma_every_word_resolves_to_itself(i);
    lemma_words_are_lowercase_letters();
    lemma_list_word_bytes(wordlist()[i]);
    let lower = word_bytes(i);
    let upper = upper_word(i);
    assert forall|k: int| 0 <= k < upper.len() implies crate::needle::ascii_lower(
        #[trigger] upper[k],
    ) == crate::needle::ascii_lower(lower[k]) by {
        assert('a' <= wordlist()[i][k] <= 'z');
        assert(lower[k] == wordlist()[i][k] as u8);
    }
    assert(same_ignoring_case(upper, lower));
    lemma_resolve_ignores_case(upper, lower);
}

} // verus!
