use sporo::bip39::SeedLength;
use sporo::flips::{Flip, Flips, MAX_FLIP_COUNT};

/// Records `pattern` left to right, reading each character as a binary digit:
/// `1` for heads and `0` for tails.
fn entered(pattern: &str) -> Flips {
    let length = SeedLength::ALL
        .into_iter()
        .find(|length| length.final_word_entropy_bits() == pattern.len())
        .expect("a pattern fills some phrase length's row");

    let mut flips = Flips::new(length);
    for digit in pattern.chars() {
        flips.record(if digit == '1' {
            Flip::Heads
        } else {
            Flip::Tails
        });
    }

    flips
}

#[test]
fn flips_a_new_entry_has_no_flips_and_no_entropy() {
    for length in SeedLength::ALL {
        let flips = Flips::new(length);

        assert_eq!(flips.count(), 0);
        assert!(!flips.is_complete());
        assert_eq!(flips.entropy(), None);
        assert_eq!(flips.flip(0), None);
    }
}

#[test]
fn each_length_needs_as_many_flips_as_its_final_word_has_entropy_bits() {
    assert_eq!(Flips::new(SeedLength::Words12).required(), 7);
    assert_eq!(Flips::new(SeedLength::Words24).required(), 3);
}

#[test]
fn flips_the_first_flip_is_the_most_significant_bit() {
    assert_eq!(entered("1000000").entropy(), Some(0b100_0000));
    assert_eq!(entered("0000001").entropy(), Some(0b000_0001));

    assert_eq!(entered("100").entropy(), Some(0b100));
    assert_eq!(entered("001").entropy(), Some(0b001));
}

#[test]
fn flips_all_heads_sets_every_bit() {
    assert_eq!(entered("1111111").entropy(), Some(0b111_1111));
}

#[test]
fn flips_all_tails_sets_none() {
    assert_eq!(entered("0000000").entropy(), Some(0));
}

#[test]
fn flips_every_flip_reads_back_where_it_was_entered() {
    let pattern = "1101001";
    let flips = entered(pattern);

    for (index, digit) in pattern.chars().enumerate() {
        let expected = if digit == '1' {
            Flip::Heads
        } else {
            Flip::Tails
        };

        assert_eq!(flips.flip(index), Some(expected), "at slot {index}");
    }

    assert_eq!(flips.flip(flips.required()), None);
}

#[test]
fn flips_a_slot_past_the_last_flip_is_empty() {
    let flips = entered("101");

    assert_eq!(flips.flip(2), Some(Flip::Heads));
    assert_eq!(flips.flip(3), None);
}

#[test]
fn flips_entropy_is_withheld_until_every_flip_is_in() {
    for length in SeedLength::ALL {
        let mut flips = Flips::new(length);

        for _ in 0..flips.required() - 1 {
            flips.record(Flip::Tails);
            assert_eq!(flips.entropy(), None, "at {} flips", flips.count());
        }

        flips.record(Flip::Tails);
        assert_eq!(flips.entropy(), Some(0));
    }
}

#[test]
fn flips_every_sequence_of_flips_gives_a_different_value() {
    for length in SeedLength::ALL {
        let required = length.final_word_entropy_bits();
        let mut seen = [false; 1 << MAX_FLIP_COUNT];

        for value in 0..(1u8 << required) {
            let mut flips = Flips::new(length);
            for bit in (0..required).rev() {
                flips.record(if (value >> bit) & 1 == 1 {
                    Flip::Heads
                } else {
                    Flip::Tails
                });
            }

            let entropy = flips.entropy().expect("every flip was entered");
            assert!(!seen[usize::from(entropy)], "{entropy} came up twice");
            seen[usize::from(entropy)] = true;
        }
    }
}

#[test]
fn flips_undo_takes_the_last_flip_back() {
    let mut flips = entered("101");

    assert!(flips.undo());
    assert_eq!(flips.count(), 2);
    assert_eq!(flips.flip(2), None);

    flips.record(Flip::Tails);
    assert_eq!(flips.flip(2), Some(Flip::Tails));
}

#[test]
fn undo_with_nothing_recorded_does_nothing() {
    let mut flips = Flips::new(SeedLength::Words12);

    assert!(!flips.undo());
    assert_eq!(flips.count(), 0);
}

#[test]
fn flips_a_finished_entry_takes_no_more_flips() {
    let mut flips = entered("1111111");

    assert!(!flips.record(Flip::Heads));
    assert!(!flips.record(Flip::Tails));
    assert_eq!(flips.count(), 7);
    assert_eq!(flips.entropy(), Some(0b111_1111));

    let mut flips = entered("101");
    assert!(flips.is_complete());
    assert!(!flips.record(Flip::Heads));
    assert_eq!(flips.entropy(), Some(0b101));
}

#[test]
fn recording_then_undoing_restores_the_value() {
    let mut flips = entered("1011010");
    assert!(flips.undo());
    assert!(flips.record(Flip::Tails));
    assert_eq!(flips.entropy(), Some(0b101_1010));
    assert!(flips.undo());
    assert!(flips.record(Flip::Heads));
    assert_eq!(flips.entropy(), Some(0b101_1011));
}
