//! Checks on a list held as line-separated text: how many lines it has, how
//! long the longest is, and whether it carries Windows line endings. A list
//! taken from text has to pass all three before its lines can stand for the
//! words [`crate::bip39_wordlist`] holds.

use vstd::prelude::*;
use vstd::string::StringSliceAdditionalSpecFns;

verus! {

/// Newline bytes in `bytes`.
pub open spec fn newlines_in(bytes: Seq<u8>) -> nat
    decreases bytes.len(),
{
    if bytes.len() == 0 {
        0
    } else {
        newlines_in(bytes.drop_last()) + if bytes.last() == 10 {
            1nat
        } else {
            0nat
        }
    }
}

/// Lines `str::lines` yields from `bytes`: one per newline, plus a last line
/// that has no newline after it. A final newline does not start an empty line.
pub open spec fn lines_in(bytes: Seq<u8>) -> nat {
    if bytes.len() == 0 || bytes.last() == 10 {
        newlines_in(bytes)
    } else {
        newlines_in(bytes) + 1
    }
}

/// Length of the line `bytes` ends in: the bytes since the last newline.
pub open spec fn last_line_len(bytes: Seq<u8>) -> nat
    decreases bytes.len(),
{
    if bytes.len() == 0 || bytes.last() == 10 {
        0
    } else {
        last_line_len(bytes.drop_last()) + 1
    }
}

/// Length of the longest line in `bytes`.
pub open spec fn longest_line_in(bytes: Seq<u8>) -> nat
    decreases bytes.len(),
{
    if bytes.len() == 0 {
        0
    } else {
        let before = longest_line_in(bytes.drop_last());
        if before >= last_line_len(bytes) {
            before
        } else {
            last_line_len(bytes)
        }
    }
}

/// Number of lines `str::lines` will yield from `text`: how many words a
/// line-separated list holds, so a truncated or re-encoded list shows as the
/// wrong count rather than shifting every index and quietly generating wrong
/// phrases.
pub fn line_count(text: &str) -> (count: usize)
    ensures
        count == lines_in(text.spec_bytes()),
{
    let bytes = text.as_bytes();
    let mut newlines: usize = 0;
    let mut index: usize = 0;
    while index < bytes.len()
        invariant
            bytes@ == text.spec_bytes(),
            index <= bytes@.len(),
            newlines == newlines_in(bytes@.take(index as int)),
            newlines <= index,
        decreases bytes@.len() - index,
    {
        proof {
            assert(bytes@.take(index as int + 1).drop_last() =~= bytes@.take(index as int));
        }
        if bytes[index] == 10 {
            newlines = newlines + 1;
        }
        index = index + 1;
    }
    proof {
        assert(bytes@.take(index as int) =~= bytes@);
        if bytes@.len() > 0 {
            lemma_newlines_at_most_bytes(bytes@.drop_last());
        }
    }

    // `lines` does not yield a trailing empty line, so a final newline does not
    // add one.
    if bytes.len() == 0 || bytes[bytes.len() - 1] == 10 {
        newlines
    } else {
        newlines + 1
    }
}

/// Length of the longest line of `text`, to check the longest word against a
/// list that has to fit in it.
pub fn longest_line(text: &str) -> (longest: usize)
    ensures
        longest == longest_line_in(text.spec_bytes()),
{
    let bytes = text.as_bytes();
    let mut longest: usize = 0;
    let mut current: usize = 0;
    let mut index: usize = 0;
    while index < bytes.len()
        invariant
            bytes@ == text.spec_bytes(),
            index <= bytes@.len(),
            current == last_line_len(bytes@.take(index as int)),
            current <= index,
            longest <= index,
            longest_line_in(bytes@.take(index as int)) == if longest >= current {
                longest
            } else {
                current
            },
        decreases bytes@.len() - index,
    {
        proof {
            assert(bytes@.take(index as int + 1).drop_last() =~= bytes@.take(index as int));
        }
        if bytes[index] == 10 {
            if current > longest {
                longest = current;
            }
            current = 0;
        } else {
            current = current + 1;
        }
        index = index + 1;
    }
    proof {
        assert(bytes@.take(index as int) =~= bytes@);
    }
    if current > longest {
        longest = current;
    }
    longest
}

/// Whether `text` holds a carriage return: a list converted to CRLF would
/// leave one on every word, so that nothing would resolve.
pub fn contains_carriage_return(text: &str) -> (found: bool)
    ensures
        found == text.spec_bytes().contains(13u8),
{
    let bytes = text.as_bytes();
    let mut index: usize = 0;
    while index < bytes.len()
        invariant
            bytes@ == text.spec_bytes(),
            index <= bytes@.len(),
            forall|k: int| 0 <= k < index ==> bytes@[k] != 13,
        decreases bytes@.len() - index,
    {
        if bytes[index] == 13 {
            assert(bytes@[index as int] == 13);
            return true;
        }
        index = index + 1;
    }
    false
}


proof fn lemma_newlines_at_most_bytes(bytes: Seq<u8>)
    ensures
        newlines_in(bytes) <= bytes.len(),
    decreases bytes.len(),
{
    if bytes.len() > 0 {
        lemma_newlines_at_most_bytes(bytes.drop_last());
    }
}

} // verus!
