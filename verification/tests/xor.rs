use sporo::action::Action;
use sporo::bip39::{complete, xor, SeedLength, MAX_WORD_COUNT};
use sporo::bounded::Word;
use sporo::view::View;
use sporo::workflow::Outcome;
use sporo::xor::Xor;

fn word(text: &str) -> Word {
    let mut word = Word::new();
    for letter in text.chars() {
        word.push(letter).expect("test words fit MAX_WORD_LEN");
    }
    word
}

fn screen(workflow: &Xor) -> &'static str {
    match workflow.view() {
        View::SeedLengthPick { .. } => "length",
        View::Words(_) => "words",
        View::Coin(_) => "coin",
        View::Phrase { .. } => "phrase",
        _ => "other",
    }
}

/// Types `text` on the word screen, walking the cursor with `Right`.
fn spell(workflow: &mut Xor, text: &str) {
    for letter in text.chars().map(|letter| letter.to_ascii_uppercase()) {
        for _ in 0..26 {
            match workflow.view() {
                View::Words(words) if words.selected() == Some(letter) => break,
                View::Words(_) => {
                    workflow.press(Action::Right);
                }
                _ => panic!("expected the word screen while spelling"),
            }
        }
        assert_eq!(workflow.press(Action::Select), Outcome::Redraw);
    }
}

fn type_phrase(workflow: &mut Xor, words: &[&str]) {
    for text in words {
        spell(workflow, text);
        assert_eq!(workflow.press(Action::Confirm), Outcome::Redraw);
    }
}

/// Eleven "abandon" and "about": the first BIP-39 vector, a phrase that checks
/// out.
fn abandon_about() -> [&'static str; 12] {
    let mut words = ["abandon"; 12];
    words[11] = "about";
    words
}

#[test]
fn a_new_xor_opens_on_the_length_picker() {
    let mut workflow = Xor::new();
    assert_eq!(screen(&workflow), "length");

    assert_eq!(workflow.press(Action::Down), Outcome::Redraw);
    match workflow.view() {
        View::SeedLengthPick { selected } => assert_eq!(selected, SeedLength::Words24),
        _ => panic!("expected the picker"),
    }
    assert_eq!(workflow.press(Action::Up), Outcome::Redraw);
    assert_eq!(workflow.press(Action::Back), Outcome::Exit);
}

#[test]
fn two_phrases_combine_into_their_xor() {
    let mut workflow = Xor::new();
    workflow.press(Action::Select);
    assert_eq!(screen(&workflow), "words");

    type_phrase(&mut workflow, &abandon_about());
    assert_eq!(screen(&workflow), "words");

    let mut zoo = ["zoo"; 12];
    zoo[11] = "wrong";
    type_phrase(&mut workflow, &zoo);
    assert_eq!(screen(&workflow), "coin");

    for _ in 0..7 {
        workflow.press(Action::Tails);
    }
    assert_eq!(workflow.press(Action::Confirm), Outcome::Redraw);

    let first: heapless::Vec<Word, MAX_WORD_COUNT> = (0..11).map(|_| word("abandon")).collect();
    let second: heapless::Vec<Word, MAX_WORD_COUNT> = (0..11).map(|_| word("zoo")).collect();
    let a = complete(SeedLength::Words12, &first, 0).unwrap();
    let b = complete(SeedLength::Words12, &second, 127).unwrap();
    let expected = xor(&a, &b, 0).unwrap();

    match workflow.view() {
        View::Phrase { mnemonic, page } => {
            assert_eq!(*mnemonic, expected);
            assert_eq!(page, 0);
            // 0 ^ 2047 is 2047, "zoo".
            assert_eq!(mnemonic.words()[..11], ["zoo"; 11]);
        }
        _ => panic!("expected the phrase, on {}", screen(&workflow)),
    }
}

#[test]
fn a_phrase_that_fails_its_checksum_is_refused_until_corrected() {
    let mut workflow = Xor::new();
    workflow.press(Action::Select);

    let mut wrong = abandon_about();
    wrong[11] = "zoo";
    type_phrase(&mut workflow, &wrong);

    // Still on the first phrase's screen, holding it, and deaf to all but Back.
    assert_eq!(screen(&workflow), "words");
    assert_eq!(workflow.press(Action::Confirm), Outcome::Unchanged);
    assert_eq!(workflow.press(Action::Back), Outcome::Redraw);

    match workflow.view() {
        View::Words(words) => {
            assert_eq!(words.current(), "ZOO");
            assert_eq!(words.accepted().len(), 11);
        }
        _ => panic!("expected the word screen"),
    }

    // Replace the last word with the one that checks out, and the second
    // phrase opens.
    for _ in 0..3 {
        workflow.press(Action::Back);
    }
    type_phrase(&mut workflow, &["about"]);
    match workflow.view() {
        View::Words(words) => assert!(words.is_empty()),
        _ => panic!("expected the second phrase's word screen"),
    }
}

#[test]
fn back_walks_out_one_phrase_at_a_time() {
    let mut workflow = Xor::new();
    workflow.press(Action::Select);
    type_phrase(&mut workflow, &abandon_about());

    // Out of the empty second phrase into the last word of the first.
    assert_eq!(workflow.press(Action::Back), Outcome::Redraw);
    match workflow.view() {
        View::Words(words) => assert_eq!(words.current(), "ABOUT"),
        _ => panic!("expected the first phrase's word screen"),
    }

    // Out of the first, once it is empty, to the picker.
    for _ in 0..200 {
        if screen(&workflow) == "length" {
            break;
        }
        workflow.press(Action::Back);
    }
    assert_eq!(screen(&workflow), "length");
}

#[test]
fn the_word_screen_names_the_phrase_and_says_when_it_does_not_check_out() {
    let mut workflow = Xor::new();
    assert_eq!(workflow.label(), None);
    workflow.press(Action::Select);
    assert_eq!(workflow.label(), Some("A"));
    assert_eq!(workflow.notice(), None);

    let mut wrong = abandon_about();
    wrong[11] = "zoo";
    type_phrase(&mut workflow, &wrong);
    assert_eq!(workflow.label(), Some("A"));
    assert_eq!(workflow.notice(), Some("phrase does not check out"));

    // Back clears the notice and reopens the last word.
    workflow.press(Action::Back);
    assert_eq!(workflow.notice(), None);
    for _ in 0..3 {
        workflow.press(Action::Back);
    }
    type_phrase(&mut workflow, &["about"]);
    assert_eq!(workflow.label(), Some("B"));
    assert_eq!(workflow.notice(), None);
}
