//! What holds of every phrase the mnemonic arithmetic builds and reads, for
//! every input: the promises the rest of the device leans on.

use vstd::prelude::*;

use crate::bip39::{
    all_in_list, all_resolve, checks_out, complete_of, final_index, indices_of, lemma_final_index,
    masked_extra, only_prefixed, parse_of, phrase_indices, prefixed, phrase_words, resolve_of,
    resolved, spells, xor_indices, xor_of, lemma_slots_fix_the_mnemonic, phrase_slots, Mnemonic,
    SeedLength,
};
use crate::bip39_wordlist::{
    in_list, lemma_first_word, lemma_list_index, lemma_list_word_bytes,
    lemma_prefixes_are_sorted, lemma_same_bytes_same_chars, lemma_words_are_distinct,
    lemma_words_are_lowercase_letters,
    word_bytes, wordlist, COUNT,
};
use crate::needle::{ascii_lower, is_ascii_letter, needle_of};
use crate::wordlist_data::key_digit;
use crate::wordlist_prefixes::prefix_key;

verus! {

/// The bytes of the words at `indices`, as they would be typed back in.
pub open spec fn spelled(indices: Seq<u16>) -> Seq<Seq<u8>> {
    indices.map_values(|i: u16| word_bytes(i as int))
}

/// Whether `a` and `b` are the same bytes but for the case of ASCII letters.
pub open spec fn same_ignoring_case(a: Seq<u8>, b: Seq<u8>) -> bool {
    a.len() == b.len() && forall|k: int|
        0 <= k < a.len() ==> ascii_lower(#[trigger] a[k]) == ascii_lower(b[k])
}

/// Every word of the list, typed out in full, resolves to itself — including
/// the 49 that also start a longer word.
pub proof fn lemma_every_word_resolves_to_itself(i: int)
    requires
        0 <= i < COUNT,
    ensures
        resolve_of(word_bytes(i)) == Some(i),
{
    let bytes = word_bytes(i);
    lemma_words_are_lowercase_letters();
    lemma_list_word_bytes(wordlist()[i]);
    assert forall|k: int| 0 <= k < bytes.len() implies is_ascii_letter(#[trigger] bytes[k]) by {
        assert('a' <= wordlist()[i][k] <= 'z');
    }
    assert(needle_of(bytes) == Some(bytes)) by {
        assert forall|k: int| 0 <= k < bytes.len() implies ascii_lower(#[trigger] bytes[k])
            == bytes[k] by {
            assert('a' <= wordlist()[i][k] <= 'z');
        }
        assert(Seq::new(bytes.len(), |k: int| ascii_lower(bytes[k])) =~= bytes);
    }
    assert(spells(bytes, i));
    let c = choose|c: int| #[trigger] spells(bytes, c);
    assert(spells(bytes, c));
    lemma_list_word_bytes(wordlist()[c]);
    lemma_same_bytes_same_chars(wordlist()[c], wordlist()[i]);
    lemma_words_are_distinct();
}

/// The first four letters of word `i`, or the whole word when it is shorter.
pub open spec fn four_letter_prefix(i: int) -> Seq<u8> {
    if word_bytes(i).len() < 4 {
        word_bytes(i)
    } else {
        word_bytes(i).take(4)
    }
}

/// Any two entries of the list differ within their first four letters: no two
/// share a [`four_letter_prefix`].
pub proof fn lemma_four_letters_tell_words_apart(i: int, j: int)
    requires
        0 <= i < COUNT,
        0 <= j < COUNT,
        i != j,
    ensures
        four_letter_prefix(i) != four_letter_prefix(j),
{
    if four_letter_prefix(i) == four_letter_prefix(j) {
        lemma_words_are_lowercase_letters();
        lemma_prefixes_are_sorted();
        let a = wordlist()[i];
        let b = wordlist()[j];
        lemma_list_word_bytes(a);
        lemma_list_word_bytes(b);
        let p = four_letter_prefix(i);
        assert forall|k: int| 0 <= k < 4 implies key_digit(a, k) == key_digit(b, k) by {
            if k < p.len() {
                assert(p[k] == word_bytes(i)[k]);
                assert(p[k] == word_bytes(j)[k]);
                assert('a' <= a[k] <= 'z');
                assert('a' <= b[k] <= 'z');
                assert(a[k] == b[k]);
            } else {
                assert(a.len() == p.len());
                assert(b.len() == p.len());
            }
        }
        assert(prefix_key(a) == prefix_key(b));
        if i < j {
            assert(prefix_key(wordlist()[i]) < prefix_key(wordlist()[j]));
        } else {
            assert(prefix_key(wordlist()[j]) < prefix_key(wordlist()[i]));
        }
    }
}

/// The first four letters of any word are enough to name it: they resolve to
/// that word, and so do the first four typed in upper case.
pub proof fn lemma_four_letters_resolve(i: int)
    requires
        0 <= i < COUNT,
    ensures
        resolve_of(four_letter_prefix(i)) == Some(i),
{
    let bytes = word_bytes(i);
    if bytes.len() <= 4 {
        assert(four_letter_prefix(i) =~= bytes);
        lemma_every_word_resolves_to_itself(i);
    } else {
        let p = bytes.take(4);
        lemma_words_are_lowercase_letters();
        lemma_list_word_bytes(wordlist()[i]);
        assert forall|k: int| 0 <= k < p.len() implies is_ascii_letter(#[trigger] p[k]) by {
            assert('a' <= wordlist()[i][k] <= 'z');
        }
        assert(needle_of(p) == Some(p)) by {
            assert forall|k: int| 0 <= k < p.len() implies ascii_lower(#[trigger] p[k]) == p[k] by {
                assert('a' <= wordlist()[i][k] <= 'z');
            }
            assert(Seq::new(p.len(), |k: int| ascii_lower(p[k])) =~= p);
        }
        assert forall|c: int| !#[trigger] spells(p, c) by {
            if spells(p, c) {
                assert(four_letter_prefix(c) == p);
                assert(c != i);
                lemma_four_letters_tell_words_apart(i, c);
            }
        }
        assert forall|j: int| 0 <= j < COUNT && #[trigger] prefixed(p, j) implies j == i by {
            assert(word_bytes(j).take(4) == p);
            assert(four_letter_prefix(j) == p);
            if j != i {
                lemma_four_letters_tell_words_apart(i, j);
            }
        }
        assert(prefixed(p, i));
        assert(only_prefixed(p, i));
        let c = choose|c: int| #[trigger] only_prefixed(p, c);
        assert(only_prefixed(p, c));
    }
}

/// Resolving ignores the case of the letters typed: input that differs only
/// in case resolves to the same word, or to none alike.
pub proof fn lemma_resolve_ignores_case(a: Seq<u8>, b: Seq<u8>)
    requires
        same_ignoring_case(a, b),
    ensures
        resolve_of(a) == resolve_of(b),
{
    assert forall|k: int| 0 <= k < a.len() implies is_ascii_letter(#[trigger] a[k])
        == is_ascii_letter(b[k]) by {
        assert(ascii_lower(a[k]) == ascii_lower(b[k]));
    }
    if needle_of(a) is Some {
        assert forall|k: int| 0 <= k < b.len() implies is_ascii_letter(#[trigger] b[k]) by {
            assert(is_ascii_letter(a[k]) == is_ascii_letter(b[k]));
        }
        assert(needle_of(a)->0 =~= needle_of(b)->0);
    } else if needle_of(b) is Some {
        assert forall|k: int| 0 <= k < a.len() implies is_ascii_letter(#[trigger] a[k]) by {
            assert(is_ascii_letter(a[k]) == is_ascii_letter(b[k]));
        }
    }
}

/// Only the low [`SeedLength::final_word_entropy_bits`] of the extra entropy
/// reach the phrase: two values that agree on them complete any entered words
/// to the same phrase.
pub proof fn lemma_only_low_extra_bits_matter(
    length: SeedLength,
    inputs: Seq<Seq<u8>>,
    extra_a: u8,
    extra_b: u8,
)
    requires
        masked_extra(length, extra_a) == masked_extra(length, extra_b),
    ensures
        complete_of(length, inputs, extra_a) == complete_of(length, inputs, extra_b),
{
}

/// Two completions of the same words whose extra bytes agree in the bits the
/// final word carries are the same mnemonic, compared as whole values: the same
/// length, the same phrase, and the same unused slots.
pub proof fn lemma_low_bits_fix_the_completion(
    length: SeedLength,
    inputs: Seq<Seq<u8>>,
    extra_a: u8,
    extra_b: u8,
    a: Mnemonic,
    b: Mnemonic,
)
    requires
        masked_extra(length, extra_a) == masked_extra(length, extra_b),
        a.phrase_length() == length,
        b.phrase_length() == length,
        a.slots() == phrase_slots(complete_of(length, inputs, extra_a)->0),
        b.slots() == phrase_slots(complete_of(length, inputs, extra_b)->0),
    ensures
        a == b,
{
    lemma_only_low_extra_bits_matter(length, inputs, extra_a, extra_b);
    lemma_slots_fix_the_mnemonic(a, b);
}

/// Every value of the final word's entropy lands on a different final word:
/// two extra values that differ in the bits the word carries give different
/// words.
pub proof fn lemma_distinct_extras_give_distinct_final_words(
    length: SeedLength,
    indices: Seq<u16>,
    extra_a: u8,
    extra_b: u8,
)
    requires
        masked_extra(length, extra_a) != masked_extra(length, extra_b),
    ensures
        final_index(length, indices, extra_a) != final_index(length, indices, extra_b),
        wordlist()[final_index(length, indices, extra_a) as int] != wordlist()[final_index(
            length,
            indices,
            extra_b,
        ) as int],
{
    lemma_final_index(length, indices, extra_a);
    lemma_final_index(length, indices, extra_b);
    lemma_words_are_distinct();
}

/// The entropy bits the final word of `inputs` carries, when it resolves.
pub open spec fn carried_extra(length: SeedLength, inputs: Seq<Seq<u8>>) -> u8 {
    (resolved(inputs).last() >> (length.checksum_bits() as u16)) as u8
}

/// Reading a phrase is completing its entered words with the entropy bits its
/// final word carries and comparing: `parse` accepts exactly when every word
/// resolves, the count is right, and that completion ends in the word given,
/// and then what it reads is that completion.
pub proof fn lemma_parse_is_completion_compared(length: SeedLength, inputs: Seq<Seq<u8>>)
    ensures
        parse_of(length, inputs) == if inputs.len() == length.total_words() && all_resolve(inputs)
            && complete_of(
            length,
            inputs.take(length.entered_words() as int),
            carried_extra(length, inputs),
        )->0.last() == resolved(inputs).last() {
            Some(
                complete_of(
                    length,
                    inputs.take(length.entered_words() as int),
                    carried_extra(length, inputs),
                )->0,
            )
        } else {
            None
        },
{
    if inputs.len() == length.total_words() && all_resolve(inputs) {
        let n = length.entered_words() as int;
        let entered = inputs.take(n);
        let all = resolved(inputs);
        assert(all_resolve(entered)) by {
            assert forall|k: int| 0 <= k < entered.len() implies (#[trigger] resolve_of(
                entered[k],
            )) is Some by {
                assert(entered[k] == inputs[k]);
            }
        }
        assert(resolved(entered) =~= all.drop_last());
        let extra = carried_extra(length, inputs);
        let completed = phrase_indices(length, all.drop_last(), extra);
        assert(complete_of(length, entered, extra) == Some(completed));
        assert(completed.last() == final_index(length, all.drop_last(), extra));
        if completed.last() == all.last() {
            assert(completed =~= all);
        }
    }
}

/// Every phrase built from words of the list — by completing entered words or
/// by XORing two phrases — passes its own checksum, and spelled back out it
/// reads as the same phrase.
pub proof fn lemma_built_phrase_parses(length: SeedLength, indices: Seq<u16>, extra: u8)
    requires
        indices.len() == length.entered_words(),
        all_in_list(indices),
    ensures
        checks_out(length, phrase_indices(length, indices, extra)),
        parse_of(length, spelled(phrase_indices(length, indices, extra))) == Some(
            phrase_indices(length, indices, extra),
        ),
{
    let phrase = phrase_indices(length, indices, extra);
    let last = final_index(length, indices, extra);
    lemma_final_index(length, indices, extra);
    let cs = length.checksum_bits() as u16;
    let m = masked_extra(length, extra);
    let bits = length.final_word_entropy_bits() as u16;
    let carried = (last >> cs) as u8;
    assert(phrase.drop_last() =~= indices);
    assert(((m as u8) as u16) == m && masked_extra(length, m as u8) == m) by {
        match length {
            SeedLength::Words12 => {
                assert(m < 128u16 ==> ((m as u8) as u16) == m && (((m as u8) as u16)
                    & 127u16) == m) by (bit_vector);
                assert(((1u16 << 7u16) - 1) as u16 == 127u16) by (bit_vector);
            },
            SeedLength::Words24 => {
                assert(m < 8u16 ==> ((m as u8) as u16) == m && (((m as u8) as u16) & 7u16)
                    == m) by (bit_vector);
                assert(((1u16 << 3u16) - 1) as u16 == 7u16) by (bit_vector);
            },
        }
    }
    assert(carried == m as u8);
    assert(checks_out(length, phrase));
    let inputs = spelled(phrase);
    assert forall|k: int| 0 <= k < inputs.len() implies (#[trigger] resolve_of(inputs[k]))
        == Some(phrase[k] as int) by {
        lemma_every_word_resolves_to_itself(phrase[k] as int);
    }
    assert(all_resolve(inputs));
    assert(resolved(inputs) =~= phrase);
}

/// A phrase XORed with itself has every entered word at index 0, "abandon":
/// `x ^ x == 0`.
pub proof fn lemma_xor_with_itself_clears_entered_words(
    length: SeedLength,
    words: Seq<Seq<char>>,
    extra: u8,
)
    requires
        words.len() == length.total_words(),
    ensures
        forall|k: int|
            0 <= k < length.entered_words() ==> #[trigger] phrase_words(
                xor_of(length, words, words, extra),
            )[k] == "abandon"@,
{
    lemma_first_word();
    let n = length.entered_words() as int;
    let ia = indices_of(words).take(n);
    assert forall|k: int| 0 <= k < n implies #[trigger] xor_indices(ia, ia)[k] == 0 by {
        let x = ia[k];
        assert(x ^ x == 0u16) by (bit_vector);
    }
}

/// The indices of the words at `indices` are `indices` again.
pub proof fn lemma_indices_of_phrase_words(indices: Seq<u16>)
    requires
        all_in_list(indices),
    ensures
        indices_of(phrase_words(indices)) == indices,
{
    assert forall|k: int| 0 <= k < indices.len() implies #[trigger] indices_of(
        phrase_words(indices),
    )[k] == indices[k] by {
        lemma_list_index(indices[k] as int);
    }
    assert(indices_of(phrase_words(indices)) =~= indices);
}

/// XORing with `b` twice gives back every entered word of `a`; only the final
/// word, which is derived rather than XORed, is not restored.
pub proof fn lemma_xor_twice_restores_entered_words(
    length: SeedLength,
    a: Seq<Seq<char>>,
    b: Seq<Seq<char>>,
    extra_once: u8,
    extra_twice: u8,
)
    requires
        a.len() == length.total_words(),
        b.len() == length.total_words(),
        forall|k: int| 0 <= k < a.len() ==> in_list(#[trigger] a[k]),
        forall|k: int| 0 <= k < b.len() ==> in_list(#[trigger] b[k]),
    ensures
        phrase_words(
            xor_of(length, phrase_words(xor_of(length, a, b, extra_once)), b, extra_twice),
        ).take(length.entered_words() as int) == a.take(length.entered_words() as int),
{
    let n = length.entered_words() as int;
    let ia = indices_of(a).take(n);
    let ib = indices_of(b).take(n);
    let once = xor_of(length, a, b, extra_once);
    let twice = xor_of(length, phrase_words(once), b, extra_twice);
    assert forall|k: int| 0 <= k < a.len() implies #[trigger] indices_of(a)[k] < COUNT
        && wordlist()[indices_of(a)[k] as int] == a[k] by {
        assert(in_list(a[k]));
    }
    assert forall|k: int| 0 <= k < b.len() implies #[trigger] indices_of(b)[k] < COUNT by {
        assert(in_list(b[k]));
    }
    assert forall|k: int| 0 <= k < n implies #[trigger] xor_indices(ia, ib)[k] < COUNT by {
        let x = ia[k];
        let y = ib[k];
        assert(x < 2048u16 && y < 2048u16 ==> (x ^ y) < 2048u16) by (bit_vector);
    }
    lemma_final_index(length, xor_indices(ia, ib), extra_once);
    assert(all_in_list(once));
    lemma_indices_of_phrase_words(once);
    assert(indices_of(phrase_words(once)).take(n) =~= xor_indices(ia, ib));
    assert forall|k: int| 0 <= k < n implies #[trigger] twice[k] == ia[k] by {
        let x = ia[k];
        let y = ib[k];
        assert((x ^ y) ^ y == x) by (bit_vector);
    }
    assert(phrase_words(twice).take(n) =~= a.take(n));
}

} // verus!
