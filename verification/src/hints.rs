//! Which keys each screen's legend offers.
//!
//! A legend that names a key doing nothing sends the user hunting; one that
//! leaves out a key that does something hides a feature. So the legend is
//! chosen from what the screen shows — whether the row of flips is full, whether
//! the phrase runs to a second page — and is held to what the keys do.

use vstd::prelude::*;
use vstd::string::StringSliceAdditionalSpecFns;

use crate::action::Action;
use crate::legend::{hint_text, keys_text, legend_text, Hint, LEGEND_LEN};
use crate::view::{pages_for, phrase_pages};

verus! {

/// The actions whose keys `hints` name.
pub open spec fn actions_of(hints: Seq<Hint>) -> Set<Action>
    decreases hints.len(),
{
    if hints.len() == 0 {
        Set::empty()
    } else {
        actions_of(hints.drop_last()) + hints.last().hint_keys().to_set()
    }
}

/// Appending a hint adds the actions it names.
proof fn lemma_actions_of_push(hints: Seq<Hint>, hint: Hint)
    ensures
        actions_of(hints.push(hint)) == actions_of(hints) + hint.hint_keys().to_set(),
{
    assert(hints.push(hint).drop_last() =~= hints);
}

/// The actions the legend of `view` offers. The home screen has none: it says
/// "press any key", which names no binding.
pub open spec fn offered_for(view: crate::view::View) -> Set<Action> {
    match view {
        crate::view::View::Home => Set::empty(),
        crate::view::View::Menu { .. } => set![Action::Up, Action::Down, Action::Select, Action::Back],
        crate::view::View::SeedLengthPick { .. } => set![Action::Up, Action::Down, Action::Select, Action::Back],
        crate::view::View::About { .. } => set![Action::Back],
        crate::view::View::Words(_) => set![
            Action::Left,
            Action::Right,
            Action::Select,
            Action::Back,
            Action::Confirm,
        ],
        crate::view::View::Coin(flips) => if flips@.len() == flips.flips_needed() {
            set![Action::Back, Action::Confirm]
        } else {
            set![Action::Heads, Action::Tails, Action::Back]
        },
        crate::view::View::Phrase { mnemonic, .. } => if pages_for(mnemonic.phrase_length().total_words() as nat) > 1 {
            set![Action::Left, Action::Right, Action::Back]
        } else {
            set![Action::Back]
        },
    }
}

/// Each hint of `hints` as the keys it names and the label it reads.
pub open spec fn hint_parts(hints: Seq<Hint>) -> Seq<(Seq<Action>, Seq<u8>)> {
    hints.map_values(|hint: Hint| (hint.hint_keys(), hint.hint_label()))
}

/// The legend of `view`, hint by hint: the keys each hint names and its label.
pub open spec fn legend_for(view: crate::view::View) -> Seq<(Seq<Action>, Seq<u8>)> {
    match view {
        crate::view::View::Home => Seq::empty(),
        crate::view::View::Menu { .. } | crate::view::View::SeedLengthPick { .. } => seq![
            (seq![Action::Up, Action::Down], "move".spec_bytes()),
            (seq![Action::Select], "select".spec_bytes()),
            (seq![Action::Back], "back".spec_bytes()),
        ],
        crate::view::View::About { .. } => seq![(seq![Action::Back], "back".spec_bytes())],
        crate::view::View::Words(_) => seq![
            (seq![Action::Left, Action::Right], "pick".spec_bytes()),
            (seq![Action::Select], "add".spec_bytes()),
            (seq![Action::Back], "del".spec_bytes()),
            (seq![Action::Confirm], "next".spec_bytes()),
        ],
        crate::view::View::Coin(flips) => if flips@.len() == flips.flips_needed() {
            seq![
                (seq![Action::Back], "undo a flip".spec_bytes()),
                (seq![Action::Confirm], "accept".spec_bytes()),
            ]
        } else {
            seq![
                (seq![Action::Heads], "heads".spec_bytes()),
                (seq![Action::Tails], "tails".spec_bytes()),
                (seq![Action::Back], "undo".spec_bytes()),
            ]
        },
        crate::view::View::Phrase { mnemonic, page } => if pages_for(
            mnemonic.phrase_length().total_words() as nat,
        ) > 1 {
            seq![
                (Seq::<Action>::empty(), (if page == 0 {
                    "1/2"
                } else {
                    "2/2"
                }).spec_bytes()),
                (seq![Action::Left, Action::Right], "page".spec_bytes()),
                (seq![Action::Back], "to edit".spec_bytes()),
            ]
        } else {
            seq![
                (Seq::<Action>::empty(), "phrase complete".spec_bytes()),
                (seq![Action::Back], "to edit".spec_bytes()),
            ]
        },
    }
}

/// How long the legend made of `parts` reads: each part's keys joined by `/`
/// and a space before its label, two spaces between one part and the next.
pub open spec fn parts_text_len(parts: Seq<(Seq<Action>, Seq<u8>)>) -> int
    decreases parts.len(),
{
    if parts.len() == 0 {
        0
    } else {
        let last = parts.last();
        let keys: int = if last.0.len() == 0 {
            0
        } else {
            (2 * last.0.len()) as int
        };
        let one: int = keys + last.1.len();
        if parts.len() == 1 {
            one
        } else {
            parts_text_len(parts.drop_last()) + 2 + one
        }
    }
}

/// `n` keys read as `n` characters with a `/` between each two.
proof fn lemma_keys_text_len(keys: Seq<Action>)
    ensures
        keys_text(keys).len() == if keys.len() == 0 {
            0
        } else {
            2 * keys.len() - 1
        },
    decreases keys.len(),
{
    if keys.len() > 1 {
        lemma_keys_text_len(keys.drop_last());
    }
}

/// A legend reads as long as [`parts_text_len`] says of its parts.
proof fn lemma_legend_text_len(hints: Seq<Hint>)
    ensures
        legend_text(hints).len() == parts_text_len(hint_parts(hints)),
    decreases hints.len(),
{
    if hints.len() > 0 {
        lemma_keys_text_len(hints.last().hint_keys());
        assert(hint_parts(hints).last() == (hints.last().hint_keys(), hints.last().hint_label()));
        if hints.len() > 1 {
            lemma_legend_text_len(hints.drop_last());
            assert(hint_parts(hints).drop_last() =~= hint_parts(hints.drop_last()));
        } else {
            assert(hints[0] == hints.last());
        }
    }
}

/// A label of ASCII characters is as many bytes as characters.
proof fn lemma_ascii_label_len(label: &str)
    requires
        vstd::utf8::is_ascii_chars(label@),
    ensures
        label.spec_bytes().len() == label@.len(),
{
    vstd::utf8::is_ascii_chars_encode_utf8(label@);
}

/// Every screen's legend fits one line of the panel, [`LEGEND_LEN`] bytes, so
/// composing it never fails.
pub proof fn lemma_every_legend_fits(view: crate::view::View)
    ensures
        parts_text_len(legend_for(view)) <= LEGEND_LEN,
{
    reveal_with_fuel(parts_text_len, 5);
    match view {
        crate::view::View::Home => {},
        crate::view::View::Menu { .. } | crate::view::View::SeedLengthPick { .. } => {
            reveal_strlit("move");
            reveal_strlit("select");
            reveal_strlit("back");
            lemma_ascii_label_len("move");
            lemma_ascii_label_len("select");
            lemma_ascii_label_len("back");
        },
        crate::view::View::About { .. } => {
            reveal_strlit("back");
            lemma_ascii_label_len("back");
        },
        crate::view::View::Words(_) => {
            reveal_strlit("pick");
            reveal_strlit("add");
            reveal_strlit("del");
            reveal_strlit("next");
            lemma_ascii_label_len("pick");
            lemma_ascii_label_len("add");
            lemma_ascii_label_len("del");
            lemma_ascii_label_len("next");
        },
        crate::view::View::Coin(_) => {
            reveal_strlit("undo a flip");
            reveal_strlit("accept");
            reveal_strlit("heads");
            reveal_strlit("tails");
            reveal_strlit("undo");
            lemma_ascii_label_len("undo a flip");
            lemma_ascii_label_len("accept");
            lemma_ascii_label_len("heads");
            lemma_ascii_label_len("tails");
            lemma_ascii_label_len("undo");
        },
        crate::view::View::Phrase { .. } => {
            reveal_strlit("1/2");
            reveal_strlit("2/2");
            reveal_strlit("page");
            reveal_strlit("to edit");
            reveal_strlit("phrase complete");
            lemma_ascii_label_len("1/2");
            lemma_ascii_label_len("2/2");
            lemma_ascii_label_len("page");
            lemma_ascii_label_len("to edit");
            lemma_ascii_label_len("phrase complete");
        },
    }
}

/// Appends a hint naming `keys`.
fn offer(hints: &mut Vec<Hint>, keys: &'static [Action], label: &'static str)
    ensures
        actions_of(final(hints)@) == actions_of(old(hints)@) + keys@.to_set(),
        hint_parts(final(hints)@) == hint_parts(old(hints)@).push((keys@, label.spec_bytes())),
{
    let hint = Hint::new(keys, label);
    proof {
        lemma_actions_of_push(hints@, hint);
    }
    hints.push(hint);
    proof {
        assert(hint_parts(hints@) =~= hint_parts(old(hints)@).push((keys@, label.spec_bytes())));
    }
}

/// Appends a hint with no key in front of it.
fn note(hints: &mut Vec<Hint>, label: &'static str)
    ensures
        actions_of(final(hints)@) == actions_of(old(hints)@),
        hint_parts(final(hints)@) == hint_parts(old(hints)@).push(
            (Seq::<Action>::empty(), label.spec_bytes()),
        ),
{
    let hint = Hint::note(label);
    proof {
        lemma_actions_of_push(hints@, hint);
        assert(actions_of(hints@.push(hint)) =~= actions_of(hints@));
    }
    hints.push(hint);
    proof {
        assert(hint_parts(hints@) =~= hint_parts(old(hints)@).push(
            (Seq::<Action>::empty(), label.spec_bytes()),
        ));
    }
}

/// The legend for `view`, hint by hint.
pub fn hints_for(view: &crate::view::View) -> (hints: Vec<Hint>)
    ensures
        actions_of(hints@) == offered_for(*view),
        hint_parts(hints@) == legend_for(*view),
        legend_text(hints@).len() <= LEGEND_LEN,
{
    let mut hints: Vec<Hint> = Vec::new();
    proof {
        assert(actions_of(hints@) =~= Set::<Action>::empty());
        assert(hint_parts(hints@) =~= Seq::empty());
    }
    match *view {
        crate::view::View::Home => {},
        crate::view::View::Menu { .. } | crate::view::View::SeedLengthPick { .. } => {
            offer(&mut hints, &[Action::Up, Action::Down], "move");
            offer(&mut hints, &[Action::Select], "select");
            offer(&mut hints, &[Action::Back], "back");
        },
        crate::view::View::About { .. } => {
            offer(&mut hints, &[Action::Back], "back");
        },
        crate::view::View::Words(_) => {
            offer(&mut hints, &[Action::Left, Action::Right], "pick");
            offer(&mut hints, &[Action::Select], "add");
            offer(&mut hints, &[Action::Back], "del");
            offer(&mut hints, &[Action::Confirm], "next");
        },
        // `Confirm` is offered only once the last flip is in: before then it
        // does nothing, and offering a key that is inert is worse than not
        // offering it at all.
        crate::view::View::Coin(flips) => {
            if flips.is_complete() {
                offer(&mut hints, &[Action::Back], "undo a flip");
                offer(&mut hints, &[Action::Confirm], "accept");
            } else {
                offer(&mut hints, &[Action::Heads], "heads");
                offer(&mut hints, &[Action::Tails], "tails");
                offer(&mut hints, &[Action::Back], "undo");
            }
        },
        crate::view::View::Phrase { mnemonic, page } => {
            if phrase_pages(mnemonic) > 1 {
                note(&mut hints, if page == 0 {
                    "1/2"
                } else {
                    "2/2"
                });
                offer(&mut hints, &[Action::Left, Action::Right], "page");
                offer(&mut hints, &[Action::Back], "to edit");
            } else {
                note(&mut hints, "phrase complete");
                offer(&mut hints, &[Action::Back], "to edit");
            }
        },
    }
    assert(actions_of(hints@) =~= offered_for(*view));
    assert(hint_parts(hints@) =~~= legend_for(*view));
    proof {
        lemma_legend_text_len(hints@);
        lemma_every_legend_fits(*view);
    }
    hints
}

} // verus!
