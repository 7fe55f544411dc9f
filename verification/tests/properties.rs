use sha2::{Digest, Sha256};
use sporo::bip39::{complete, index_from_digest, resolve, xor, SeedLength, MAX_WORD_COUNT};
use sporo::bip39_wordlist::{index_of, words, COUNT, MAX_WORD_LEN};
use sporo::bounded::Word;
use sporo::wordlist_text::{contains_carriage_return, line_count, longest_line};

fn word(text: &str) -> Word {
    let mut word = Word::new();
    for letter in text.chars() {
        word.push(letter).expect("test words fit MAX_WORD_LEN");
    }

    word
}

fn entered(text: &str, count: usize) -> heapless::Vec<Word, MAX_WORD_COUNT> {
    (0..count).map(|_| word(text)).collect()
}

/// The list as the upstream file holds it: one word per line, each line ended.
fn list_text() -> std::string::String {
    let mut text = std::string::String::new();
    for word in words() {
        text.push_str(word);
        text.push('\n');
    }
    text
}

#[test]
fn the_list_is_the_upstream_file_byte_for_byte() {
    let digest = Sha256::digest(list_text().as_bytes());
    let hex: std::string::String = digest.iter().map(|byte| format!("{byte:02x}")).collect();

    assert_eq!(
        hex,
        "2f5eed53a4727b4bf8880d8f3f199efc90e58503646d9ff8eff3a2ed3b24dbda"
    );
}

#[test]
fn the_list_text_passes_its_checks() {
    let text = list_text();

    assert_eq!(line_count(&text), COUNT);
    assert_eq!(longest_line(&text), MAX_WORD_LEN);
    assert!(!contains_carriage_return(&text));
}

#[test]
fn a_converted_list_fails_its_checks() {
    let crlf = list_text().replace('\n', "\r\n");
    assert!(contains_carriage_return(&crlf));

    // A dropped line shows as the wrong count.
    let short = list_text().replacen("zoo\n", "", 1);
    assert_eq!(line_count(&short), COUNT - 1);
}

#[test]
fn line_counting_follows_str_lines() {
    for text in ["", "a", "a\n", "a\nb", "a\nb\n", "\n", "\n\n", "ab\n\ncd"] {
        assert_eq!(line_count(text), text.lines().count(), "for {text:?}");
        assert_eq!(
            longest_line(text),
            text.lines().map(str::len).max().unwrap_or(0),
            "for {text:?}"
        );
    }
}

#[test]
fn every_word_resolves_in_upper_case() {
    for word in words() {
        let upper = word.to_ascii_uppercase();
        assert_eq!(resolve(&upper), Some(word));
    }
}

#[test]
fn a_completed_phrase_ends_in_the_checksum_word() {
    // The final word is the entropy bits followed by the checksum; "about"
    // carries seven zero bits and the checksum 3.
    let mnemonic = complete(SeedLength::Words12, &entered("abandon", 11), 0).unwrap();
    assert_eq!(index_of(mnemonic.final_word()), Some(3));

    // One flip changes the entropy, and with it the checksum.
    let mnemonic = complete(SeedLength::Words12, &entered("abandon", 11), 1).unwrap();
    assert_eq!(index_of(mnemonic.final_word()).unwrap() >> 4, 1);
    assert_ne!(mnemonic.final_word(), "about");
}

#[test]
fn xoring_twice_gives_back_the_entered_words() {
    let a = complete(SeedLength::Words24, &entered("legal", 23), 5).unwrap();
    let b = complete(SeedLength::Words24, &entered("zoo", 23), 2).unwrap();

    let once = xor(&a, &b, 1).unwrap();
    let twice = xor(&once, &b, 6).unwrap();

    assert_eq!(twice.words()[..23], a.words()[..23]);
    assert_eq!(twice.length(), SeedLength::Words24);
}

#[test]
fn a_word_never_outgrows_its_buffer() {
    assert_eq!(words().iter().filter(|word| word.len() == MAX_WORD_LEN).count() > 0, true);
    assert_eq!(words()[7], "abstract");
}

#[test]
fn the_length_arithmetic_holds_for_every_length() {
    for length in SeedLength::ALL {
        let checksum = length.checksum_bits();
        assert_eq!(11 * length.total_words(), length.entropy_bits() + checksum);
        assert_eq!(length.final_word_entropy_bits() + checksum, 11);
        assert_eq!(length.entered_words() + 1, length.total_words());
        assert!(length.entered_words() <= MAX_WORD_COUNT);
    }
    assert_eq!(SeedLength::Words12.final_word_entropy_bits(), 7);
    assert_eq!(SeedLength::Words24.final_word_entropy_bits(), 3);
}

#[test]
fn the_final_index_is_the_extra_bits_then_the_digest_bits() {
    let mut digest = [0u8; 32];
    digest[0] = 0x37;
    // Seven zero bits, then the top four bits of 0x37.
    assert_eq!(index_from_digest(SeedLength::Words12, 0, &digest), 3);
    // Only the low seven bits of the extra byte count.
    assert_eq!(index_from_digest(SeedLength::Words12, 0x81, &digest), (1 << 4) | 3);

    digest[0] = 0xab;
    // Three bits, then the whole first byte.
    assert_eq!(index_from_digest(SeedLength::Words24, 7, &digest), (7 << 8) | 0xab);
    assert_eq!(index_from_digest(SeedLength::Words24, 0xf8, &digest), 0xab);
}

#[test]
fn four_letters_name_every_word() {
    for word in words() {
        let prefix = &word[..word.len().min(4)];
        assert_eq!(resolve(prefix), Some(word));
        assert_eq!(resolve(&prefix.to_ascii_uppercase()), Some(word));
    }
}

#[test]
fn no_two_words_share_four_letters() {
    let list = words();
    for (i, a) in list.iter().enumerate() {
        for b in &list[i + 1..] {
            assert_ne!(&a[..a.len().min(4)], &b[..b.len().min(4)]);
        }
    }
}
