//! The fixed-capacity strings and vectors the device keeps words and legends
//! in, from `heapless`: no allocator, so every buffer is sized up front.
//!
//! Verus sees each of them through a name for what it holds and a wrapper per
//! method the crate calls, whose contract is what `heapless` 0.8's source does
//! for the values that reach it here. Only the capacities the crate uses are
//! named: eight bytes for a word, twenty-four words for the longest phrase,
//! thirty-two bytes for a legend.

use vstd::prelude::*;
use vstd::string::StringSliceAdditionalSpecFns;

verus! {

#[verifier::external_type_specification]
#[verifier::external_body]
pub struct ExHeaplessString<const N: usize>(heapless::String<N>);

#[verifier::external_type_specification]
#[verifier::external_body]
#[verifier::reject_recursive_types(T)]
pub struct ExHeaplessVec<T, const N: usize>(heapless::Vec<T, N>);

/// One entered word: up to eight bytes, the length of the longest word.
pub type Word = heapless::String<8>;

/// Every word of the longest phrase.
pub type WordList = heapless::Vec<Word, 24>;

/// One keypad legend.
pub type Line = heapless::String<32>;

/// The bytes a [`Word`] holds.
pub uninterp spec fn word_bytes_of(word: heapless::String<8>) -> Seq<u8>;

/// The words a [`WordList`] holds, oldest first.
pub uninterp spec fn word_list_items(list: heapless::Vec<heapless::String<8>, 24>) -> Seq<
    heapless::String<8>,
>;

/// The bytes a [`Line`] holds.
pub uninterp spec fn line_bytes_of(line: heapless::String<32>) -> Seq<u8>;

/// Bytes below 128, each a character on its own.
pub open spec fn all_ascii(bytes: Seq<u8>) -> bool {
    forall|k: int| 0 <= k < bytes.len() ==> #[trigger] bytes[k] < 128
}

/// `heapless::String::new`: an empty word.
#[verifier::external_body]
pub(crate) fn word_new() -> (word: Word)
    ensures
        word_bytes_of(word) == Seq::<u8>::empty(),
{
    heapless::String::new()
}

/// `heapless::String::as_str`: the word's bytes, as a string.
#[verifier::external_body]
pub(crate) fn word_as_str(word: &Word) -> (text: &str)
    ensures
        text.spec_bytes() == word_bytes_of(*word),
{
    word.as_str()
}

/// `heapless::String::push` for an ASCII byte, as the character it is: one
/// byte, appended when the word is below capacity, and refused with the word
/// unchanged when it is full.
#[verifier::external_body]
pub(crate) fn word_push(word: &mut Word, letter: u8) -> (pushed: bool)
    requires
        letter < 128,
    ensures
        pushed == (word_bytes_of(*old(word)).len() < 8),
        pushed ==> word_bytes_of(*final(word)) == word_bytes_of(*old(word)).push(letter),
        !pushed ==> word_bytes_of(*final(word)) == word_bytes_of(*old(word)),
{
    word.push(letter as char).is_ok()
}

/// `heapless::String::pop` on ASCII content: the last byte taken off, as a
/// character, or `None` for an empty word.
#[verifier::external_body]
pub(crate) fn word_pop(word: &mut Word) -> (last: Option<char>)
    requires
        all_ascii(word_bytes_of(*old(word))),
    ensures
        word_bytes_of(*old(word)).len() == 0 ==> last is None && word_bytes_of(*final(word))
            == word_bytes_of(*old(word)),
        word_bytes_of(*old(word)).len() > 0 ==> last == Some(
            word_bytes_of(*old(word)).last() as char,
        ) && word_bytes_of(*final(word)) == word_bytes_of(*old(word)).drop_last(),
{
    word.pop()
}

/// `heapless::String::len`: the word's length in bytes.
#[verifier::external_body]
pub(crate) fn word_len(word: &Word) -> (len: usize)
    ensures
        len == word_bytes_of(*word).len(),
{
    word.len()
}

/// `heapless::Vec::new`: no words.
#[verifier::external_body]
pub(crate) fn word_list_new() -> (list: WordList)
    ensures
        word_list_items(list) == Seq::<Word>::empty(),
{
    heapless::Vec::new()
}

/// `heapless::Vec::push`: the word appended when there is room for it.
#[verifier::external_body]
pub(crate) fn word_list_push(list: &mut WordList, word: Word) -> (pushed: bool)
    ensures
        pushed == (word_list_items(*old(list)).len() < 24),
        pushed ==> word_list_items(*final(list)) == word_list_items(*old(list)).push(word),
        !pushed ==> word_list_items(*final(list)) == word_list_items(*old(list)),
{
    list.push(word).is_ok()
}

/// `heapless::Vec::pop`: the newest word taken off, or `None` when there are
/// none.
#[verifier::external_body]
pub(crate) fn word_list_pop(list: &mut WordList) -> (last: Option<Word>)
    ensures
        word_list_items(*old(list)).len() == 0 ==> last is None && word_list_items(*final(list))
            == word_list_items(*old(list)),
        word_list_items(*old(list)).len() > 0 ==> last == Some(
            word_list_items(*old(list)).last(),
        ) && word_list_items(*final(list)) == word_list_items(*old(list)).drop_last(),
{
    list.pop()
}

/// `heapless::Vec::as_slice`: the words, oldest first.
#[verifier::external_body]
pub(crate) fn word_list_as_slice(list: &WordList) -> (words: &[Word])
    ensures
        words@ == word_list_items(*list),
{
    list.as_slice()
}

/// `heapless::String::new`: an empty line.
#[verifier::external_body]
pub(crate) fn line_new() -> (line: Line)
    ensures
        line_bytes_of(line) == Seq::<u8>::empty(),
{
    heapless::String::new()
}

/// `heapless::String::push_str`: the text appended when the whole of it fits,
/// and nothing appended otherwise.
#[verifier::external_body]
pub(crate) fn line_push_str(line: &mut Line, text: &str) -> (pushed: bool)
    ensures
        pushed == (line_bytes_of(*old(line)).len() + text.spec_bytes().len() <= 32),
        pushed ==> line_bytes_of(*final(line)) == line_bytes_of(*old(line)) + text.spec_bytes(),
        !pushed ==> line_bytes_of(*final(line)) == line_bytes_of(*old(line)),
{
    line.push_str(text).is_ok()
}

/// `heapless::String::push` for an ASCII character.
#[verifier::external_body]
pub(crate) fn line_push(line: &mut Line, letter: char) -> (pushed: bool)
    requires
        (letter as u32) < 128,
    ensures
        pushed == (line_bytes_of(*old(line)).len() < 32),
        pushed ==> line_bytes_of(*final(line)) == line_bytes_of(*old(line)).push(letter as u8),
        !pushed ==> line_bytes_of(*final(line)) == line_bytes_of(*old(line)),
{
    line.push(letter).is_ok()
}

} // verus!
