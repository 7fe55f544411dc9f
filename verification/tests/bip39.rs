use sporo::bip39::{complete, parse, resolve, xor, Mnemonic, SeedLength, MAX_WORD_COUNT, MAX_WORD_COUNT_TOTAL};
use sporo::bip39::SeedLength::{Words12, Words24};
use sporo::bip39_wordlist::{index_of, words};
use sporo::bounded::Word;
use sporo::flips::{Flip, Flips};

fn word(text: &str) -> Word {
    let mut word = Word::new();
    for letter in text.chars() {
        word.push(letter).expect("test words fit MAX_WORD_LEN");
    }

    word
}

fn entered(phrase: &str) -> heapless::Vec<Word, MAX_WORD_COUNT> {
    phrase.split_whitespace().map(word).collect()
}

/// The first `words` words of `pattern` repeated, joined by spaces.
fn repeated(pattern: &str, words: usize) -> heapless::String<256> {
    let mut phrase = heapless::String::new();
    for text in pattern.split_whitespace().cycle().take(words) {
        if !phrase.is_empty() {
            phrase.push(' ').unwrap();
        }
        phrase.push_str(text).unwrap();
    }

    phrase
}

/// The reference vectors from BIP-39 itself, split the way the library splits
/// them: every word but the last is entered, and the low bits of the entropy
/// are what the coin screen supplies.
const VECTORS: [(SeedLength, &str, u8, &str); 8] = [
    (Words12, "abandon", 0, "about"),
    (
        Words12,
        "legal winner thank year wave sausage worth useful",
        127,
        "yellow",
    ),
    (
        Words12,
        "letter advice cage absurd amount doctor acoustic avoid",
        0,
        "above",
    ),
    (Words12, "zoo", 127, "wrong"),
    (Words24, "abandon", 0, "art"),
    (
        Words24,
        "legal winner thank year wave sausage worth useful",
        7,
        "title",
    ),
    (
        Words24,
        "letter advice cage absurd amount doctor acoustic avoid",
        0,
        "bless",
    ),
    (Words24, "zoo", 7, "vote"),
];

fn vectors() -> impl Iterator<Item = (SeedLength, heapless::String<256>, u8, &'static str)> {
    VECTORS
        .into_iter()
        .map(|(length, pattern, extra, expected)| {
            (
                length,
                repeated(pattern, length.entered_words()),
                extra,
                expected,
            )
        })
}

#[test]
fn completes_the_bip39_reference_vectors() {
    for (length, phrase, extra, expected) in vectors() {
        let mnemonic =
            complete(length, &entered(&phrase), extra).expect("vector words are in the list");

        assert_eq!(mnemonic.words().len(), length.total_words());
        assert_eq!(mnemonic.final_word(), expected, "for {phrase:?}");
        for (produced, given) in mnemonic.words().iter().zip(phrase.split_whitespace()) {
            assert_eq!(*produced, given);
        }
    }
}

#[test]
fn completes_the_same_vectors_entered_in_upper_case() {
    for (length, phrase, extra, expected) in vectors() {
        let upper: heapless::String<256> =
            phrase.chars().map(|c| c.to_ascii_uppercase()).collect();
        let mnemonic =
            complete(length, &entered(&upper), extra).expect("case is not significant");

        assert_eq!(mnemonic.final_word(), expected);
    }
}

#[test]
fn only_the_low_bits_of_the_extra_byte_are_used() {
    for length in SeedLength::ALL {
        let words = entered(&repeated("abandon", length.entered_words()));

        let above = 1u8 << length.final_word_entropy_bits();
        assert_eq!(
            complete(length, &words, above).unwrap(),
            complete(length, &words, 0).unwrap()
        );
        assert_ne!(
            complete(length, &words, 1).unwrap(),
            complete(length, &words, 0).unwrap()
        );
    }
}

#[test]
fn every_extra_value_yields_a_distinct_final_word() {
    for length in SeedLength::ALL {
        let words = entered(&repeated("abandon", length.entered_words()));
        let mut seen: heapless::Vec<&str, 128> = heapless::Vec::new();

        for extra in 0..(1u8 << length.final_word_entropy_bits()) {
            let word = complete(length, &words, extra).unwrap().final_word();
            assert!(
                !seen.contains(&word),
                "{word:?} produced by two different extras"
            );
            seen.push(word).unwrap();
        }
    }
}

#[test]
fn bip39_the_flips_complete_the_bip39_reference_vectors() {
    for (length, phrase, extra, expected) in vectors() {
        let flip = if extra == 0 { Flip::Tails } else { Flip::Heads };
        let mut flips = Flips::new(length);
        while flips.record(flip) {}

        let entropy = flips.entropy().expect("every flip was recorded");
        let mnemonic =
            complete(length, &entered(&phrase), entropy).expect("vector words are in the list");

        assert_eq!(mnemonic.final_word(), expected, "for {phrase:?}");
    }
}

#[test]
fn a_short_phrase_does_not_complete() {
    for length in SeedLength::ALL {
        assert_eq!(complete(length, &[word("ABANDON")], 0), None);
        assert_eq!(complete(length, &[], 0), None);
    }
}

#[test]
fn a_phrase_of_the_other_length_does_not_complete() {
    let eleven = entered(&repeated("abandon", Words12.entered_words()));
    let twenty_three = entered(&repeated("abandon", Words24.entered_words()));

    assert_eq!(complete(Words24, &eleven, 0), None);
    assert_eq!(complete(Words12, &twenty_three, 0), None);
}

#[test]
fn resolve_accepts_whole_words_in_either_case() {
    assert_eq!(resolve("abandon"), Some("abandon"));
    assert_eq!(resolve("ABANDON"), Some("abandon"));
    assert_eq!(resolve("AbAnDoN"), Some("abandon"));
    assert_eq!(resolve("ZOO"), Some("zoo"));
}

#[test]
fn resolve_accepts_a_prefix_only_one_word_has() {
    assert_eq!(resolve("ABAN"), Some("abandon"));
    assert_eq!(resolve("AE"), Some("aerobic"));
    assert_eq!(resolve("ZO"), None);
}

#[test]
fn resolve_refuses_a_prefix_several_words_share() {
    assert_eq!(resolve("AB"), None);
    assert_eq!(resolve("A"), None);
}

#[test]
fn resolve_prefers_a_whole_word_to_the_words_extending_it() {
    let all = words();
    let prefix_words: heapless::Vec<&str, 64> = all
        .iter()
        .copied()
        .filter(|word| all.iter().any(|other| other != word && other.starts_with(word)))
        .collect();

    assert_eq!(prefix_words.len(), 49);
    for word in prefix_words {
        assert_eq!(resolve(word), Some(word));
    }
}

#[test]
fn resolve_refuses_what_is_not_in_the_list() {
    assert_eq!(resolve(""), None);
    assert_eq!(resolve("ABZ"), None);
    assert_eq!(resolve("QQQQ"), None);
    assert_eq!(resolve("ABANDONING"), None);
    assert_eq!(resolve("ABAND0N"), None);
}

#[test]
fn every_word_resolves_to_itself() {
    for word in words() {
        assert_eq!(resolve(word), Some(word));
    }
}

/// Every word of a finished mnemonic, as `parse` takes them.
fn spelled(mnemonic: &Mnemonic) -> heapless::Vec<Word, MAX_WORD_COUNT_TOTAL> {
    mnemonic.words().iter().copied().map(word).collect()
}

/// The vector phrases, completed, to XOR and re-parse.
fn completed() -> impl Iterator<Item = (SeedLength, Mnemonic)> {
    vectors().map(|(length, phrase, extra, _)| {
        (
            length,
            complete(length, &entered(&phrase), extra).expect("vector words are in the list"),
        )
    })
}

#[test]
fn parse_accepts_the_bip39_reference_vectors() {
    for (length, mnemonic) in completed() {
        assert_eq!(
            parse(length, &spelled(&mnemonic)),
            Some(mnemonic),
            "a phrase this module built was refused when read back"
        );
    }
}

#[test]
fn parse_refuses_a_phrase_whose_final_word_is_wrong() {
    for (length, mnemonic) in completed() {
        let mut words = spelled(&mnemonic);
        let last = words.len() - 1;

        for replacement in ["abandon", "zoo", "legal"] {
            if replacement == mnemonic.final_word() {
                continue;
            }
            words[last] = word(replacement);

            assert_eq!(
                parse(length, &words),
                None,
                "{replacement:?} passed as the final word of a {length:?} phrase"
            );
        }
    }
}

#[test]
fn parse_refuses_a_phrase_of_the_wrong_length() {
    for (length, mnemonic) in completed() {
        let words = spelled(&mnemonic);

        assert_eq!(parse(length, &words[..words.len() - 1]), None);
        assert_eq!(
            parse(
                match length {
                    Words12 => Words24,
                    Words24 => Words12,
                },
                &words
            ),
            None
        );
    }
}

#[test]
fn xor_refuses_phrases_of_different_lengths() {
    let short = complete(Words12, &entered(&repeated("abandon", 11)), 0).unwrap();
    let long = complete(Words24, &entered(&repeated("abandon", 23)), 0).unwrap();

    assert_eq!(xor(&short, &long, 0), None);
    assert_eq!(xor(&long, &short, 0), None);
}

#[test]
fn xoring_a_phrase_with_itself_clears_every_entered_word() {
    for (length, mnemonic) in completed() {
        let result = xor(&mnemonic, &mnemonic, 0).expect("the lengths match");

        for word in &result.words()[..length.entered_words()] {
            assert_eq!(*word, "abandon");
        }
    }
}

#[test]
fn xor_combines_the_entered_words_pairwise() {
    let a = complete(Words24, &entered(&repeated("zoo", 23)), 7).unwrap();
    let b = complete(
        Words24,
        &entered(&repeated(
            "letter advice cage absurd amount doctor acoustic avoid",
            23,
        )),
        0,
    )
    .unwrap();

    let result = xor(&a, &b, 0).expect("the lengths match");

    for index in 0..Words24.entered_words() {
        let index_of = |word| index_of(word).unwrap();

        assert_eq!(
            index_of(result.words()[index]),
            index_of(a.words()[index]) ^ index_of(b.words()[index]),
        );
    }
}

#[test]
fn every_xor_result_is_a_phrase_that_parses() {
    for (length, a) in completed() {
        let mask = (1u8 << length.final_word_entropy_bits()) - 1;

        for (other, b) in completed() {
            if other != length {
                continue;
            }

            for extra in [0, 1, mask / 2, mask] {
                let result = xor(&a, &b, extra).expect("the lengths match");

                assert_eq!(
                    parse(length, &spelled(&result)),
                    Some(result),
                    "a XORed phrase failed its own checksum"
                );
            }
        }
    }
}

#[test]
fn xor_accepts_every_value_the_flips_can_produce() {
    for (length, a) in completed() {
        for extra in 0..1u16 << length.final_word_entropy_bits() {
            let result = xor(&a, &a, extra as u8).expect("the lengths match");

            assert_eq!(parse(length, &spelled(&result)), Some(result));
        }
    }
}

#[test]
fn xor_is_not_reversible_through_the_final_word() {
    let a = complete(Words12, &entered(&repeated("zoo", 11)), 127).unwrap();
    let b = complete(
        Words12,
        &entered(&repeated(
            "legal winner thank year wave sausage worth useful",
            11,
        )),
        42,
    )
    .unwrap();

    let result = xor(&a, &b, 0).expect("the lengths match");
    let back = xor(&result, &b, 0).expect("the lengths match");

    assert_eq!(
        back.words()[..Words12.entered_words()],
        a.words()[..Words12.entered_words()]
    );
    assert_ne!(back.final_word(), a.final_word());
    assert_ne!(back, a);
}
