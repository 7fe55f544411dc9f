use sporo::bip39::SeedLength;
use sporo::bip39_wordlist::words;
use sporo::word_entry::{
    WordEntry, ALPHABET, KEY_ACCEPT, KEY_ADD, KEY_DELETE, KEY_NEXT, KEY_PREV, MAX_WORD_LEN,
    WORD_COUNT,
};

/// Walks the cursor onto `letter` with `6` presses and adds it, the way a user
/// would, rather than reaching into the state.
fn add_letter(entry: &mut WordEntry, letter: char) {
    let target = ALPHABET
        .iter()
        .position(|candidate| *candidate == letter.to_ascii_uppercase() as u8)
        .expect("wordlist letters are a-z");

    assert!(
        entry.reachable().contains(target),
        "{letter:?} is unreachable after {:?}",
        entry.current()
    );

    for _ in 0..ALPHABET.len() {
        if entry.cursor() == Some(target) {
            break;
        }
        entry.handle_key(KEY_NEXT);
    }

    assert_eq!(
        entry.cursor(),
        Some(target),
        "cursor never reached {letter:?}"
    );
    assert!(entry.handle_key(KEY_ADD), "{letter:?} was not added");
}

fn spell(entry: &mut WordEntry, word: &str) {
    for letter in word.chars() {
        add_letter(entry, letter);
    }
}

fn enter(entry: &mut WordEntry, word: &str) {
    spell(entry, word);
    assert!(entry.handle_key(KEY_ACCEPT));
    assert!(!entry.rejected(), "{word:?} was refused");
}

#[test]
fn a_new_entry_starts_on_a_with_every_initial_offered() {
    let entry = WordEntry::new();

    assert_eq!(entry.current(), "");
    assert_eq!(entry.cursor(), Some(0));
    assert_eq!(entry.selected(), Some('A'));
    assert_eq!(entry.word_number(), 1);
    assert_eq!(entry.reachable().count(), 25);
}

#[test]
fn a_word_is_stored_in_upper_case() {
    let mut entry = WordEntry::new();
    enter(&mut entry, "abandon");

    assert_eq!(entry.accepted(), ["ABANDON"]);
    assert_eq!(entry.current(), "");
    assert_eq!(entry.word_number(), 2);
}

#[test]
fn a_unique_prefix_is_completed_on_accept() {
    let mut entry = WordEntry::new();
    enter(&mut entry, "aban");

    assert_eq!(entry.accepted(), ["ABANDON"]);
}

#[test]
fn the_cursor_skips_letters_that_spell_nothing() {
    let mut entry = WordEntry::new();
    spell(&mut entry, "ab");

    assert_eq!(entry.cursor(), Some(0));
    entry.handle_key(KEY_NEXT);
    assert_eq!(entry.selected(), Some('I'));
    entry.handle_key(KEY_PREV);
    assert_eq!(entry.selected(), Some('A'));
    entry.handle_key(KEY_PREV);
    assert_eq!(entry.selected(), Some('U'));
}

#[test]
fn a_dead_end_letter_cannot_be_added() {
    let mut entry = WordEntry::new();
    spell(&mut entry, "aband");

    assert_eq!(entry.reachable().count(), 1);
    assert_eq!(entry.selected(), Some('O'));

    assert!(!entry.handle_key(KEY_NEXT));
    assert!(!entry.handle_key(KEY_PREV));
    assert_eq!(entry.selected(), Some('O'));
}

#[test]
fn a_finished_word_offers_no_letter() {
    let mut entry = WordEntry::new();
    spell(&mut entry, "abandon");

    assert!(entry.reachable().is_empty());
    assert_eq!(entry.cursor(), None);
    assert_eq!(entry.selected(), None);
    assert!(!entry.handle_key(KEY_NEXT));
    assert!(!entry.handle_key(KEY_ADD));
}

#[test]
fn a_word_that_extends_another_still_offers_its_extensions() {
    let mut entry = WordEntry::new();
    spell(&mut entry, "add");

    assert_eq!(entry.reachable().count(), 2);
    assert_eq!(entry.selected(), Some('I'));

    assert!(entry.handle_key(KEY_ACCEPT));
    assert_eq!(entry.accepted(), ["ADD"]);
}

#[test]
fn an_ambiguous_prefix_is_refused_and_kept() {
    let mut entry = WordEntry::new();
    spell(&mut entry, "ab");

    assert!(entry.handle_key(KEY_ACCEPT));
    assert!(entry.rejected());
    assert_eq!(entry.current(), "AB");
    assert!(entry.accepted().is_empty());
}

#[test]
fn the_next_keypress_clears_a_refusal() {
    let mut entry = WordEntry::new();
    spell(&mut entry, "ab");
    entry.handle_key(KEY_ACCEPT);
    assert!(entry.rejected());

    assert!(entry.handle_key('1'));
    assert!(!entry.rejected());
    assert!(!entry.handle_key('1'));
}

#[test]
fn a_refused_word_can_be_finished_and_accepted() {
    let mut entry = WordEntry::new();
    spell(&mut entry, "ab");
    entry.handle_key(KEY_ACCEPT);

    add_letter(&mut entry, 'l');
    assert!(!entry.rejected());
    assert!(entry.handle_key(KEY_ACCEPT));
    assert_eq!(entry.accepted(), ["ABLE"]);
}

#[test]
fn delete_backs_out_of_a_word_letter_by_letter() {
    let mut entry = WordEntry::new();
    spell(&mut entry, "aband");

    assert!(entry.handle_key(KEY_DELETE));
    assert_eq!(entry.current(), "ABAN");
    assert_eq!(entry.reachable().count(), 1);
    assert_eq!(entry.selected(), Some('D'));
}

#[test]
fn delete_on_an_empty_word_reopens_the_previous_one() {
    let mut entry = WordEntry::new();
    enter(&mut entry, "abandon");
    assert_eq!(entry.word_number(), 2);

    assert!(entry.handle_key(KEY_DELETE));
    assert_eq!(entry.current(), "ABANDON");
    assert!(entry.accepted().is_empty());
    assert_eq!(entry.word_number(), 1);
}

#[test]
fn delete_at_the_very_start_does_nothing() {
    let mut entry = WordEntry::new();

    assert!(!entry.handle_key(KEY_DELETE));
    assert_eq!(entry.current(), "");
}

#[test]
fn a_finished_phrase_takes_no_more_words() {
    let mut entry = WordEntry::new();
    for _ in 0..WORD_COUNT {
        enter(&mut entry, "abandon");
    }

    assert!(entry.is_complete());
    assert_eq!(entry.accepted().len(), WORD_COUNT);
    assert_eq!(entry.word_number(), WORD_COUNT);

    assert!(entry.reachable().is_empty());
    assert!(!entry.handle_key(KEY_ADD));
    assert!(!entry.handle_key(KEY_ACCEPT));
    assert_eq!(entry.accepted().len(), WORD_COUNT);

    assert!(entry.handle_key(KEY_DELETE));
    assert!(!entry.is_complete());
    assert_eq!(entry.current(), "ABANDON");
}

#[test]
fn every_word_in_the_list_can_be_spelled_and_accepted() {
    for word in words() {
        let mut entry = WordEntry::new();
        enter(&mut entry, word);

        let expected: heapless::String<MAX_WORD_LEN> =
            word.chars().map(|c| c.to_ascii_uppercase()).collect();
        assert_eq!(entry.accepted(), [expected]);
    }
}

#[test]
fn an_entry_for_a_long_phrase_takes_twenty_three_words() {
    let mut entry = WordEntry::for_length(SeedLength::Words24);
    for number in 1..=23 {
        assert_eq!(entry.word_number(), number);
        assert!(!entry.is_complete());
        enter(&mut entry, "zoo");
    }

    assert!(entry.is_complete());
    assert_eq!(entry.word_number(), 23);
    assert!(!entry.handle_key(KEY_ACCEPT));
}

#[test]
fn deleting_every_letter_leaves_an_empty_entry() {
    let mut entry = WordEntry::new();
    enter(&mut entry, "zoo");
    spell(&mut entry, "ab");
    assert!(!entry.is_empty());

    while entry.delete() {}

    assert!(entry.is_empty());
    assert_eq!(entry.selected(), Some('A'));
}
