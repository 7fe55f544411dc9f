//! The official BIP-39 English wordlist, and the lookups the entry screen and
//! the mnemonic arithmetic make against it.
//!
//! A single altered word would silently produce mnemonics no other wallet can
//! restore, so the words are held exactly as published (see
//! [`crate::wordlist_data`]) and what the rest of the crate relies on about
//! them — every entry is one to eight lowercase letters, no entry appears
//! twice — is proved of the list itself rather than assumed.

use vstd::prelude::*;
use vstd::string::StringSliceAdditionalSpecFns;

pub use crate::letter_set::LetterSet;
pub use crate::needle::{needle_of, Needle};

use crate::wordlist_prefixes::{lemma_prefix_keys_rise, prefix_key};
use crate::wordlist_data::{
    checked_upto, entry, is_list_word, lemma_all_entries_checked, word_key, word_str,
    WORDS_0, WORDS_1,
    WORDS_2, WORDS_3,
};

verus! {

/// Words in the list. BIP-39 fixes this at 2^11, one per 11-bit group.
pub const COUNT: usize = 2048;

/// Letters the list is written in: plain ASCII `a`-`z`.
///
/// The entry screen's alphabet is the same letters in the same order, so a
/// position in one is a position in the other and [`LetterSet`] can be indexed
/// by either.
pub const LETTERS: usize = 26;

/// Length of the longest word, and so the capacity a buffer needs to hold any
/// of them.
pub const MAX_WORD_LEN: usize = 8;

/// The list, in the order that defines each word's value.
pub closed spec fn wordlist() -> Seq<Seq<char>> {
    Seq::new(COUNT as nat, |i: int| entry(i))
}

/// The bytes of a run of ASCII characters, one per character.
pub open spec fn ascii_bytes(s: Seq<char>) -> Seq<u8> {
    Seq::new(s.len(), |k: int| s[k] as u8)
}

/// The bytes of word `i` of the list.
pub open spec fn word_bytes(i: int) -> Seq<u8> {
    ascii_bytes(wordlist()[i])
}

/// The position of `word` in the list. Meaningful when it is in the list,
/// where it is the only such position (see [`lemma_words_are_distinct`]).
pub open spec fn list_index(word: Seq<char>) -> int {
    choose|i: int| 0 <= i < COUNT && wordlist()[i] == word
}

/// Whether `word` is in the list.
pub open spec fn in_list(word: Seq<char>) -> bool {
    exists|i: int| 0 <= i < COUNT && wordlist()[i] == word
}

proof fn lemma_checked_entries(n: int)
    requires
        0 <= n,
        checked_upto(n),
    ensures
        forall|i: int| 0 <= i < n ==> is_list_word(#[trigger] entry(i)),
        forall|i: int, j: int|
            0 <= i < j < n ==> word_key(#[trigger] entry(i)) < word_key(#[trigger] entry(j)),
    decreases n,
{
    if n > 0 {
        lemma_checked_entries(n - 1);
        assert forall|i: int, j: int| 0 <= i < j < n implies word_key(#[trigger] entry(i))
            < word_key(#[trigger] entry(j)) by {
            if j == n - 1 && i < n - 2 {
                assert(word_key(entry(i)) < word_key(entry(n - 2)));
            }
        }
    }
}

/// Every word in the list is one to eight lowercase ASCII letters.
pub proof fn lemma_words_are_lowercase_letters()
    ensures
        forall|i: int| 0 <= i < COUNT ==> is_list_word(#[trigger] wordlist()[i]),
{
    lemma_all_entries_checked();
    lemma_checked_entries(2048);
}

/// No word appears in the list twice, so a word names exactly one value.
pub proof fn lemma_words_are_distinct()
    ensures
        forall|i: int, j: int|
            0 <= i < COUNT && 0 <= j < COUNT && i != j ==> #[trigger] wordlist()[i]
                != #[trigger] wordlist()[j],
{
    lemma_all_entries_checked();
    lemma_checked_entries(2048);
    assert forall|i: int, j: int|
        0 <= i < COUNT && 0 <= j < COUNT && i != j implies #[trigger] wordlist()[i]
        != #[trigger] wordlist()[j] by {
        if i < j {
            assert(word_key(entry(i)) < word_key(entry(j)));
        } else {
            assert(word_key(entry(j)) < word_key(entry(i)));
        }
    }
}

/// The list is in dictionary order: every word's key is larger than the one
/// before it. A list out of order would mean it is not the upstream one, and
/// indices decide what a phrase means.
pub proof fn lemma_words_are_sorted()
    ensures
        forall|i: int, j: int|
            0 <= i < j < COUNT ==> word_key(#[trigger] wordlist()[i]) < word_key(
                #[trigger] wordlist()[j],
            ),
{
    lemma_all_entries_checked();
    lemma_checked_entries(2048);
    assert forall|i: int, j: int| 0 <= i < j < COUNT implies word_key(#[trigger] wordlist()[i])
        < word_key(#[trigger] wordlist()[j]) by {
        assert(word_key(entry(i)) < word_key(entry(j)));
    }
}

/// No two words share their first four letters: read as a number, the first
/// four letters of each word are larger than those of every word before it.
pub proof fn lemma_prefixes_are_sorted()
    ensures
        forall|i: int, j: int|
            0 <= i < j < COUNT ==> prefix_key(#[trigger] wordlist()[i]) < prefix_key(
                #[trigger] wordlist()[j],
            ),
{
    lemma_prefix_keys_rise();
    assert forall|i: int, j: int| 0 <= i < j < COUNT implies prefix_key(
        #[trigger] wordlist()[i],
    ) < prefix_key(#[trigger] wordlist()[j]) by {
        assert(prefix_key(entry(i)) < prefix_key(entry(j)));
    }
}

/// A word in the list sits at [`list_index`], and nowhere else.
pub proof fn lemma_list_index(i: int)
    requires
        0 <= i < COUNT,
    ensures
        in_list(wordlist()[i]),
        list_index(wordlist()[i]) == i,
{
    lemma_words_are_distinct();
    assert(wordlist()[i] == wordlist()[i]);
}

/// A run of `a`-`z` is ASCII, so its UTF-8 bytes are its characters.
pub proof fn lemma_list_word_bytes(s: Seq<char>)
    requires
        is_list_word(s),
    ensures
        vstd::utf8::is_ascii_chars(s),
        vstd::utf8::encode_utf8(s) == ascii_bytes(s),
        forall|k: int| 0 <= k < s.len() ==> 'a' <= #[trigger] s[k] <= 'z',
        s.len() <= MAX_WORD_LEN,
        0 < s.len(),
{
    assert forall|k: int| 0 <= k < s.len() implies 'a' <= #[trigger] s[k] <= 'z' by {
        if k == 0 {
        } else if k == 1 {
        } else if k == 2 {
        } else if k == 3 {
        } else if k == 4 {
        } else if k == 5 {
        } else if k == 6 {
        } else {
            assert(k == 7);
        }
    }
    vstd::utf8::is_ascii_chars_encode_utf8(s);
    assert(vstd::utf8::encode_utf8(s) =~= ascii_bytes(s));
}

/// Two strings whose bytes agree hold the same characters.
pub proof fn lemma_same_bytes_same_chars(a: Seq<char>, b: Seq<char>)
    requires
        vstd::utf8::encode_utf8(a) == vstd::utf8::encode_utf8(b),
    ensures
        a == b,
{
    vstd::utf8::encode_utf8_decode_utf8(a);
    vstd::utf8::encode_utf8_decode_utf8(b);
}

/// Word `index` of the list.
fn entry_at(index: usize) -> (word: &'static str)
    requires
        index < COUNT,
    ensures
        word@ == wordlist()[index as int],
        word == word_str(index as int),
{
    if index < 512 {
        WORDS_0[index]
    } else if index < 1024 {
        WORDS_1[index - 512]
    } else if index < 1536 {
        WORDS_2[index - 1024]
    } else {
        WORDS_3[index - 1536]
    }
}

/// Word `index` of the list, with its bytes.
pub(crate) fn entry_with_bytes(index: usize) -> (result: (&'static str, &'static [u8]))
    requires
        index < COUNT,
    ensures
        result.0@ == wordlist()[index as int],
        result.1@ == word_bytes(index as int),
        is_list_word(wordlist()[index as int]),
{
    let word = entry_at(index);
    proof {
        lemma_words_are_lowercase_letters();
        lemma_list_word_bytes(wordlist()[index as int]);
    }
    (word, word.as_bytes())
}

/// Whether two byte strings are equal.
pub(crate) fn bytes_equal(a: &[u8], b: &[u8]) -> (equal: bool)
    ensures
        equal == (a@ == b@),
{
    if a.len() != b.len() {
        return false;
    }
    let mut k: usize = 0;
    while k < a.len()
        invariant
            a@.len() == b@.len(),
            k <= a@.len(),
            forall|m: int| 0 <= m < k ==> a@[m] == b@[m],
        decreases a@.len() - k,
    {
        if a[k] != b[k] {
            return false;
        }
        k = k + 1;
    }
    assert(a@ =~= b@);
    true
}

/// Whether two strings hold the same characters.
pub(crate) fn same_word(a: &str, b: &str) -> (same: bool)
    ensures
        same == (a@ == b@),
{
    let same = bytes_equal(a.as_bytes(), b.as_bytes());
    proof {
        if same {
            lemma_same_bytes_same_chars(a@, b@);
        }
    }
    same
}

/// [`MAX_WORD_LEN`] is the length of the longest word, not merely a bound on
/// it: "abstract", at index 7, fills it.
pub proof fn lemma_max_word_len_is_reached()
    ensures
        wordlist()[7] == "abstract"@,
        wordlist()[7].len() == MAX_WORD_LEN,
        forall|i: int| 0 <= i < COUNT ==> (#[trigger] wordlist()[i]).len() <= MAX_WORD_LEN,
{
    reveal_strlit("abstract");
    assert(wordlist()[7] == entry(7));
    lemma_words_are_lowercase_letters();
}

/// The first word of the list, the one index 0 encodes, is "abandon".
pub proof fn lemma_first_word()
    ensures
        wordlist()[0] == "abandon"@,
{
    reveal_strlit("abandon");
    assert(wordlist()[0] == entry(0));
}

/// Whether `bytes` starts with `prefix`.
pub(crate) fn starts_with(bytes: &[u8], prefix: &[u8]) -> (starts: bool)
    ensures
        starts == (prefix@.len() <= bytes@.len() && bytes@.take(prefix@.len() as int)
            == prefix@),
{
    if prefix.len() > bytes.len() {
        return false;
    }
    let mut k: usize = 0;
    while k < prefix.len()
        invariant
            prefix@.len() <= bytes@.len(),
            k <= prefix@.len(),
            forall|m: int| 0 <= m < k ==> bytes@[m] == prefix@[m],
        decreases prefix@.len() - k,
    {
        if bytes[k] != prefix[k] {
            assert(bytes@.take(prefix@.len() as int)[k as int] != prefix@[k as int]);
            return false;
        }
        k = k + 1;
    }
    assert(bytes@.take(prefix@.len() as int) =~= prefix@);
    true
}

/// The words, in the order that defines their index.
pub fn words() -> (list: Vec<&'static str>)
    ensures
        list@.len() == COUNT,
        forall|i: int| 0 <= i < COUNT ==> (#[trigger] list@[i])@ == wordlist()[i],
{
    let mut list: Vec<&'static str> = Vec::new();
    let mut index: usize = 0;
    while index < COUNT
        invariant
            index <= COUNT,
            list@.len() == index,
            forall|i: int| 0 <= i < index ==> (#[trigger] list@[i])@ == wordlist()[i],
        decreases COUNT - index,
    {
        list.push(entry_at(index));
        index = index + 1;
    }
    list
}

/// The word encoding `index`, or `None` if it is past the end of the list.
pub fn word_at(index: u16) -> (word: Option<&'static str>)
    ensures
        word is Some <==> index < COUNT,
        word matches Some(w) ==> w@ == wordlist()[index as int] && w == word_str(index as int),
{
    if (index as usize) < COUNT {
        Some(entry_at(index as usize))
    } else {
        None
    }
}

/// The value `word` encodes, matched exactly.
pub fn index_of(word: &str) -> (index: Option<u16>)
    ensures
        index is Some <==> in_list(word@),
        index matches Some(i) ==> i < COUNT && wordlist()[i as int] == word@ && list_index(
            word@,
        ) == i,
{
    let target = word.as_bytes();
    let mut index: usize = 0;
    while index < COUNT
        invariant
            index <= COUNT,
            target@ == word.spec_bytes(),
            forall|i: int| 0 <= i < index ==> wordlist()[i] != word@,
        decreases COUNT - index,
    {
        let (_, candidate) = entry_with_bytes(index);
        if bytes_equal(candidate, target) {
            proof {
                lemma_list_word_bytes(wordlist()[index as int]);
                lemma_same_bytes_same_chars(wordlist()[index as int], word@);
                lemma_list_index(index as int);
            }
            return Some(index as u16);
        }
        proof {
            lemma_list_word_bytes(wordlist()[index as int]);
            if wordlist()[index as int] == word@ {
                assert(candidate@ == target@);
            }
        }
        index = index + 1;
    }
    None
}


/// Whether word `i` carries on past `needle` with letter `letter` of the
/// alphabet.
pub open spec fn continues_with(needle: Seq<u8>, i: int, letter: int) -> bool {
    &&& needle.len() < word_bytes(i).len()
    &&& word_bytes(i).take(needle.len() as int) == needle
    &&& word_bytes(i)[needle.len() as int] == 97 + letter
}

/// The letters that follow `prefix` in some word of the list.
pub open spec fn next_letters_of(prefix: Seq<u8>) -> Set<int> {
    match needle_of(prefix) {
        None => Set::empty(),
        Some(needle) => Set::new(
            |letter: int|
                0 <= letter < LETTERS && exists|i: int|
                    0 <= i < COUNT && continues_with(needle, i, letter),
        ),
    }
}

/// The letters that can follow `prefix` and still reach a word.
///
/// This is what lets the entry screen dim the rest: a letter outside this set
/// spells something no word in the list starts with, so offering it would only
/// lead the user into a dead end they have to back out of one `*` at a time.
///
/// An empty prefix returns 25 letters, not 26 — no BIP-39 English word starts
/// with `x`. A whole word with nothing longer extending it returns the empty
/// set, and so does a prefix that matches nothing.
pub fn next_letters(prefix: &str) -> (letters: LetterSet)
    ensures
        letters@ == next_letters_of(prefix.spec_bytes()),
{
    let needle = match Needle::new(prefix) {
        Some(needle) => needle,
        None => {
            return LetterSet::empty();
        },
    };
    let needle = needle.as_bytes();
    let ghost n = needle@;
    let mut letters = LetterSet::empty();
    let mut index: usize = 0;
    while index < COUNT
        invariant
            index <= COUNT,
            n == needle@,
            n == needle_of(prefix.spec_bytes())->0,
            letters@ == Set::new(
                |letter: int|
                    0 <= letter < LETTERS && exists|i: int|
                        0 <= i < index && continues_with(n, i, letter),
            ),
        decreases COUNT - index,
    {
        let ghost before = letters@;
        let (_, bytes) = entry_with_bytes(index);
        proof {
            lemma_list_word_bytes(wordlist()[index as int]);
        }
        if bytes.len() > needle.len() && starts_with(bytes, needle) {
            let letter = bytes[needle.len()] - 97;
            letters.insert(letter as usize);
            proof {
                assert(continues_with(n, index as int, letter as int));
                assert forall|l: int|
                    letters@.contains(l) == (0 <= l < LETTERS && exists|i: int|
                        0 <= i < index + 1 && continues_with(n, i, l)) by {
                    if 0 <= l < LETTERS && exists|i: int|
                        0 <= i < index + 1 && continues_with(n, i, l) {
                        let i = choose|i: int| 0 <= i < index + 1 && continues_with(n, i, l);
                        if i == index {
                            assert(l == letter);
                        } else {
                            assert(before.contains(l));
                        }
                    }
                }
            }
        } else {
            proof {
                assert forall|l: int|
                    letters@.contains(l) == (0 <= l < LETTERS && exists|i: int|
                        0 <= i < index + 1 && continues_with(n, i, l)) by {
                    if 0 <= l < LETTERS && exists|i: int|
                        0 <= i < index + 1 && continues_with(n, i, l) {
                        let i = choose|i: int| 0 <= i < index + 1 && continues_with(n, i, l);
                        if i == index {
                            assert(bytes@.take(n.len() as int) == n);
                        } else {
                            assert(before.contains(l));
                        }
                    }
                }
            }
        }
        proof {
            assert(letters@ =~= Set::new(
                |letter: int|
                    0 <= letter < LETTERS && exists|i: int|
                        0 <= i < index + 1 && continues_with(n, i, letter),
            ));
        }
        index = index + 1;
    }
    proof {
        assert(letters@ =~= next_letters_of(prefix.spec_bytes()));
    }
    letters
}


} // verus!
