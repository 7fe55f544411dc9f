use sporo::bip39_wordlist::{
    index_of, next_letters, word_at, words, LetterSet, Needle, COUNT, LETTERS, MAX_WORD_LEN,
};

/// Position of an ASCII letter in the alphabet, for readable expectations.
fn letter(character: char) -> usize {
    usize::from(character as u8 - b'a')
}

fn set(letters: &str) -> LetterSet {
    let mut result = LetterSet::empty();
    for character in letters.chars() {
        result.insert(letter(character));
    }

    result
}

#[test]
fn asset_holds_exactly_the_words_the_constants_promise() {
    assert_eq!(words().len(), COUNT);
    assert_eq!(words().iter().map(|word| word.len()).max(), Some(MAX_WORD_LEN));
    assert!(words()
        .iter()
        .all(|word| word.bytes().all(|b| b.is_ascii_lowercase())));
}

#[test]
fn asset_is_sorted() {
    let mut previous = "";
    for word in words() {
        assert!(previous < word, "{previous:?} then {word:?}");
        previous = word;
    }
}

#[test]
fn index_and_word_round_trip_across_the_whole_list() {
    for (index, word) in words().into_iter().enumerate() {
        let index = index as u16;
        assert_eq!(word_at(index), Some(word));
        assert_eq!(index_of(word), Some(index));
    }
}

#[test]
fn index_past_the_end_has_no_word() {
    assert_eq!(word_at(COUNT as u16), None);
    assert_eq!(index_of("notaword"), None);
}

#[test]
fn nothing_starts_with_x() {
    let initials = next_letters("");

    assert_eq!(initials.count(), LETTERS - 1);
    assert!(!initials.contains(letter('x')));
    assert!(initials.contains(letter('a')));
    assert!(initials.contains(letter('z')));
}

#[test]
fn next_letters_narrows_to_a_single_continuation() {
    assert_eq!(next_letters("aband"), set("o"));
    assert_eq!(next_letters("ab"), set("ailosu"));
}

#[test]
fn next_letters_is_empty_at_a_word_nothing_extends() {
    assert_eq!(next_letters("abandon"), LetterSet::empty());
    assert_eq!(next_letters("zoo"), LetterSet::empty());
}

#[test]
fn next_letters_still_offers_extensions_of_a_whole_word() {
    assert_eq!(next_letters("add"), set("ir"));
}

#[test]
fn next_letters_ignores_case() {
    assert_eq!(next_letters("ABAND"), next_letters("aband"));
    assert_eq!(next_letters("AbAnD"), set("o"));
}

#[test]
fn next_letters_rejects_what_cannot_be_a_word() {
    assert_eq!(next_letters("abz"), LetterSet::empty());
    assert_eq!(next_letters("toolongforalist"), LetterSet::empty());
    assert_eq!(next_letters("ab3"), LetterSet::empty());
    assert_eq!(next_letters("ábc"), LetterSet::empty());
}

#[test]
fn needle_normalises_and_rejects() {
    assert_eq!(Needle::new("AbC").unwrap().as_bytes(), b"abc");
    assert!(Needle::new("").unwrap().is_empty());
    assert!(Needle::new("waaaytoolong").is_none());
    assert!(Needle::new("ab-c").is_none());
}

#[test]
fn letter_set_walks_only_its_members() {
    let letters = set("aco");

    assert_eq!(letters.first(), Some(letter('a')));
    assert_eq!(letters.next_after(letter('a')), Some(letter('c')));
    assert_eq!(letters.next_after(letter('c')), Some(letter('o')));
    assert_eq!(letters.next_after(letter('o')), Some(letter('a')));
    assert_eq!(letters.prev_before(letter('a')), Some(letter('o')));

    assert_eq!(letters.next_after(letter('b')), Some(letter('c')));
    assert_eq!(letters.prev_before(letter('b')), Some(letter('a')));
}

#[test]
fn letter_set_with_one_member_comes_back_to_it() {
    let only = set("q");

    assert_eq!(only.next_after(letter('q')), Some(letter('q')));
    assert_eq!(only.prev_before(letter('q')), Some(letter('q')));
    assert_eq!(only.next_after(letter('a')), Some(letter('q')));
}

#[test]
fn empty_letter_set_goes_nowhere() {
    assert_eq!(LetterSet::empty().first(), None);
    assert_eq!(LetterSet::empty().next_after(0), None);
    assert_eq!(LetterSet::empty().prev_before(0), None);
    assert!(LetterSet::empty().is_empty());
    assert!(!LetterSet::empty().contains(0));
}

#[test]
fn letter_set_ignores_positions_off_the_alphabet() {
    let mut letters = LetterSet::empty();
    letters.insert(LETTERS);

    assert!(letters.is_empty());
    assert!(!set("a").contains(LETTERS));
}
