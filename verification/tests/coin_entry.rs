use sporo::bip39::{complete, SeedLength};
use sporo::coin_entry::{CoinEntry, CoinEvent, Flip, FLIP_COUNT};
use sporo::word_entry::{WordEntry, KEY_ACCEPT, KEY_ADD, KEY_DELETE, KEY_HEADS, KEY_NEXT, KEY_TAILS};

/// Enters `pattern` one key per flip, the way a user would: `1` for heads and
/// `0` for tails, left to right.
fn entered(pattern: &str) -> CoinEntry {
    let mut coins = CoinEntry::new();
    for flip in pattern.chars() {
        coins.handle_key(flip);
    }

    coins
}

#[test]
fn coin_entry_a_new_entry_has_no_flips_and_no_entropy() {
    let coins = CoinEntry::new();

    assert_eq!(coins.count(), 0);
    assert!(!coins.is_complete());
    assert_eq!(coins.entropy(), None);
    assert_eq!(coins.flip(0), None);
}

#[test]
fn coin_entry_the_first_flip_is_the_most_significant_bit() {
    assert_eq!(entered("1000000").entropy(), Some(0b100_0000));
    assert_eq!(entered("0000001").entropy(), Some(0b000_0001));
}

#[test]
fn coin_entry_all_heads_sets_every_bit() {
    assert_eq!(entered("1111111").entropy(), Some(0b111_1111));
}

#[test]
fn coin_entry_all_tails_sets_none() {
    assert_eq!(entered("0000000").entropy(), Some(0));
}

#[test]
fn coin_entry_every_flip_reads_back_where_it_was_entered() {
    let pattern = "1101001";
    let coins = entered(pattern);

    for (index, key) in pattern.chars().enumerate() {
        let expected = if key == KEY_HEADS {
            Flip::Heads
        } else {
            Flip::Tails
        };

        assert_eq!(coins.flip(index), Some(expected), "at slot {index}");
    }

    assert_eq!(coins.flip(FLIP_COUNT), None);
}

#[test]
fn coin_entry_a_slot_past_the_last_flip_is_empty() {
    let coins = entered("101");

    assert_eq!(coins.flip(2), Some(Flip::Heads));
    assert_eq!(coins.flip(3), None);
}

#[test]
fn coin_entry_entropy_is_withheld_until_every_flip_is_in() {
    let mut coins = CoinEntry::new();

    for _ in 0..FLIP_COUNT - 1 {
        coins.handle_key(KEY_TAILS);
        assert_eq!(coins.entropy(), None, "at {} flips", coins.count());
    }

    coins.handle_key(KEY_TAILS);
    assert_eq!(coins.entropy(), Some(0));
}

#[test]
fn coin_entry_every_sequence_of_flips_gives_a_different_value() {
    let mut seen = [false; 1 << FLIP_COUNT];

    for value in 0..(1u8 << FLIP_COUNT) {
        let mut coins = CoinEntry::new();
        for bit in (0..FLIP_COUNT).rev() {
            coins.handle_key(if (value >> bit) & 1 == 1 {
                KEY_HEADS
            } else {
                KEY_TAILS
            });
        }

        let entropy = coins.entropy().expect("every flip was entered");
        assert!(!seen[usize::from(entropy)], "{entropy} came up twice");
        seen[usize::from(entropy)] = true;
    }
}

#[test]
fn coin_entry_undo_takes_the_last_flip_back() {
    let mut coins = entered("101");

    assert_eq!(coins.handle_key(KEY_DELETE), CoinEvent::Changed);
    assert_eq!(coins.count(), 2);
    assert_eq!(coins.flip(2), None);

    coins.handle_key(KEY_TAILS);
    assert_eq!(coins.flip(2), Some(Flip::Tails));
}

#[test]
fn undo_on_an_empty_entry_backs_out() {
    let mut coins = CoinEntry::new();

    assert_eq!(coins.handle_key(KEY_DELETE), CoinEvent::Dismissed);
    assert_eq!(coins.count(), 0);
}

#[test]
fn coin_entry_a_finished_entry_takes_no_more_flips() {
    let mut coins = entered("1111111");

    assert_eq!(coins.handle_key(KEY_HEADS), CoinEvent::Ignored);
    assert_eq!(coins.handle_key(KEY_TAILS), CoinEvent::Ignored);
    assert_eq!(coins.count(), FLIP_COUNT);
    assert_eq!(coins.entropy(), Some(0b111_1111));
}

#[test]
fn accept_is_inert_until_every_flip_is_in() {
    let mut coins = CoinEntry::new();

    for _ in 0..FLIP_COUNT - 1 {
        assert_eq!(coins.handle_key(KEY_ACCEPT), CoinEvent::Ignored);
        coins.handle_key(KEY_HEADS);
    }

    assert_eq!(coins.handle_key(KEY_ACCEPT), CoinEvent::Ignored);
    coins.handle_key(KEY_HEADS);
    assert_eq!(coins.handle_key(KEY_ACCEPT), CoinEvent::Confirmed);
}

#[test]
fn accepting_does_not_change_the_flips() {
    let mut coins = entered("1011010");
    let first = coins.entropy();

    assert_eq!(coins.handle_key(KEY_ACCEPT), CoinEvent::Confirmed);
    assert_eq!(coins.handle_key(KEY_ACCEPT), CoinEvent::Confirmed);
    assert_eq!(coins.entropy(), first);
}

#[test]
fn unbound_keys_are_ignored() {
    let mut coins = CoinEntry::new();

    for key in ['2', '3', '4', '5', '6', '7', '8', '9'] {
        assert_eq!(
            coins.handle_key(key),
            CoinEvent::Ignored,
            "{key:?} was bound"
        );
    }

    assert_eq!(coins.count(), 0);
}

#[test]
fn coin_entry_the_flips_complete_the_bip39_reference_vectors() {
    let vectors = [
        (
            "abandon abandon abandon abandon abandon abandon abandon abandon \
             abandon abandon abandon",
            "0000000",
            "about",
        ),
        (
            "legal winner thank year wave sausage worth useful legal winner thank",
            "1111111",
            "yellow",
        ),
    ];

    for (phrase, flips, expected) in vectors {
        let mut entry = WordEntry::new();
        for word in phrase.split_whitespace() {
            for letter in word.chars() {
                while entry.selected() != Some(letter.to_ascii_uppercase()) {
                    entry.handle_key(KEY_NEXT);
                }
                entry.handle_key(KEY_ADD);
            }
            entry.handle_key(KEY_ACCEPT);
        }

        let entropy = entered(flips).entropy().expect("every flip was entered");
        let mnemonic = complete(SeedLength::Words12, entry.accepted(), entropy)
            .expect("vector words are in the list");

        assert_eq!(mnemonic.final_word(), expected, "for {flips:?}");
    }
}
