//! The keypad legend along the bottom of a screen, composed from the keymap.
//!
//! Each screen describes its legend as which actions to offer and what to call
//! them; the key characters come from [`crate::keymap::key`]. Typing the legend
//! out as a literal is what this replaces: a literal restates the binding, and
//! nothing checks the restatement, so a rebinding could leave the panel naming
//! a key that did nothing.

use vstd::prelude::*;
use vstd::string::StringSliceAdditionalSpecFns;

use crate::action::Action;
use crate::bounded::{line_bytes_of, line_new, line_push, line_push_str, Line};
use crate::keymap::key;

verus! {

/// Longest a legend can be: a line of the panel.
pub const LEGEND_LEN: usize = 32;

/// One item in a legend: the keys that do a thing, and what to call the thing.
pub struct Hint {
    keys: &'static [Action],
    label: &'static str,
}

impl Hint {
    /// The actions whose keys the hint names.
    pub closed spec fn hint_keys(self) -> Seq<Action> {
        self.keys@
    }

    /// What the hint calls the thing, as bytes.
    pub closed spec fn hint_label(self) -> Seq<u8> {
        self.label.spec_bytes()
    }

    pub fn new(keys: &'static [Action], label: &'static str) -> (hint: Self)
        ensures
            hint.hint_keys() == keys@,
            hint.hint_label() == label.spec_bytes(),
    {
        Self { keys, label }
    }

    /// Text with no key in front of it — "phrase complete", say.
    pub fn note(label: &'static str) -> (hint: Self)
        ensures
            hint.hint_keys() == Seq::<Action>::empty(),
            hint.hint_label() == label.spec_bytes(),
    {
        let keys: &'static [Action] = &[];
        Self { keys, label }
    }

    /// Whether this hint names `action`'s key.
    pub fn offers(&self, action: Action) -> (offered: bool)
        ensures
            offered == self.hint_keys().contains(action),
    {
        let mut index: usize = 0;
        while index < self.keys.len()
            invariant
                index <= self.keys@.len(),
                forall|k: int| 0 <= k < index ==> self.keys@[k] != action,
            decreases self.keys@.len() - index,
        {
            if self.keys[index] == action {
                assert(self.keys@[index as int] == action);
                return true;
            }
            index = index + 1;
        }
        false
    }
}

/// The key characters of `keys`, joined by `/`.
pub open spec fn keys_text(keys: Seq<Action>) -> Seq<u8>
    decreases keys.len(),
{
    if keys.len() == 0 {
        Seq::empty()
    } else if keys.len() == 1 {
        seq![key(keys[0]) as u8]
    } else {
        keys_text(keys.drop_last()) + seq![47u8, key(keys.last()) as u8]
    }
}

/// One hint as it reads: its keys, a space, and its label; just the label for
/// a note.
pub open spec fn hint_text(hint: Hint) -> Seq<u8> {
    keys_text(hint.hint_keys()) + (if hint.hint_keys().len() > 0 {
        seq![32u8]
    } else {
        Seq::empty()
    }) + hint.hint_label()
}

/// `hints` laid out as one line, two spaces between one hint and the next.
pub open spec fn legend_text(hints: Seq<Hint>) -> Seq<u8>
    decreases hints.len(),
{
    if hints.len() == 0 {
        Seq::empty()
    } else if hints.len() == 1 {
        hint_text(hints[0])
    } else {
        legend_text(hints.drop_last()) + seq![32u8, 32u8] + hint_text(hints.last())
    }
}

proof fn lemma_keys_text_grows(keys: Seq<Action>, count: int)
    requires
        0 <= count <= keys.len(),
    ensures
        keys_text(keys.take(count)).len() <= keys_text(keys).len(),
    decreases keys.len() - count,
{
    if count < keys.len() {
        lemma_keys_text_grows(keys, count + 1);
        assert(keys.take(count + 1).drop_last() =~= keys.take(count));
    } else {
        assert(keys.take(count) =~= keys);
    }
}

proof fn lemma_legend_text_grows(hints: Seq<Hint>, count: int)
    requires
        0 <= count <= hints.len(),
    ensures
        legend_text(hints.take(count)).len() <= legend_text(hints).len(),
    decreases hints.len() - count,
{
    if count < hints.len() {
        lemma_legend_text_grows(hints, count + 1);
        assert(hints.take(count + 1).drop_last() =~= hints.take(count));
    } else {
        assert(hints.take(count) =~= hints);
    }
}

/// Appends the keys of `hint` and the space after them.
fn push_keys(line: &mut Line, hint: &Hint)
    requires
        line_bytes_of(*old(line)).len() + keys_text(hint.hint_keys()).len() + (if hint.hint_keys().len() > 0 {
            1int
        } else {
            0int
        }) <= LEGEND_LEN,
    ensures
        line_bytes_of(*final(line)) == line_bytes_of(*old(line)) + keys_text(hint.hint_keys()) + (
        if hint.hint_keys().len() > 0 {
            seq![32u8]
        } else {
            Seq::empty()
        }),
{
    let ghost start = line_bytes_of(*line);
    let ghost keys = hint.keys@;
    let mut position: usize = 0;
    proof {
        assert(keys.take(0) =~= Seq::<Action>::empty());
        assert(start + keys_text(keys.take(0)) =~= start);
    }
    while position < hint.keys.len()
        invariant
            keys == hint.keys@,
            keys == hint.hint_keys(),
            position <= keys.len(),
            line_bytes_of(*line) == start + keys_text(keys.take(position as int)),
            start.len() + keys_text(keys).len() <= LEGEND_LEN,
        decreases keys.len() - position,
    {
        proof {
            lemma_keys_text_grows(keys, position as int + 1);
            assert(keys.take(position as int + 1).drop_last() =~= keys.take(position as int));
            assert(keys.take(position as int + 1).last() == keys[position as int]);
            if position == 0 {
                assert(keys.take(1) =~= seq![keys[0]]);
            }
        }
        if position > 0 {
            let pushed = line_push(line, '/');
            assert(pushed);
        }
        let pushed = line_push(line, key(hint.keys[position]));
        proof {
            assert(pushed);
            if position == 0 {
                assert(line_bytes_of(*line) =~= start + keys_text(keys.take(1)));
            } else {
                assert(line_bytes_of(*line) =~= start + keys_text(keys.take(position as int + 1)));
            }
        }
        position = position + 1;
    }
    proof {
        assert(keys.take(position as int) =~= keys);
    }
    if hint.keys.len() > 0 {
        let pushed = line_push(line, ' ');
        assert(pushed);
    } else {
        assert(line_bytes_of(*line) =~= start + keys_text(keys) + Seq::<u8>::empty());
    }
}

/// Lays `hints` out as one line: the keys of a hint joined by `/` and followed
/// by its label, and two spaces between one hint and the next.
///
/// The line has to fit [`LEGEND_LEN`]: a clipped legend names a key that is
/// not there, which is worse than no legend.
pub fn compose(hints: &[Hint]) -> (line: Line)
    requires
        legend_text(hints@).len() <= LEGEND_LEN,
    ensures
        line_bytes_of(line) == legend_text(hints@),
{
    let mut line = line_new();
    let mut index: usize = 0;
    proof {
        assert(hints@.take(0) =~= Seq::<Hint>::empty());
    }
    while index < hints.len()
        invariant
            index <= hints@.len(),
            line_bytes_of(line) == legend_text(hints@.take(index as int)),
            legend_text(hints@).len() <= LEGEND_LEN,
        decreases hints@.len() - index,
    {
        let ghost before = line_bytes_of(line);
        let hint = &hints[index];
        proof {
            lemma_legend_text_grows(hints@, index as int + 1);
            assert(hints@.take(index as int + 1).drop_last() =~= hints@.take(index as int));
            assert(hints@.take(index as int + 1).last() == hints@[index as int]);
            if index == 0 {
                assert(hints@.take(1) =~= seq![hints@[0]]);
                assert(legend_text(hints@.take(1)) == hint_text(*hint));
            } else {
                assert(legend_text(hints@.take(index as int + 1)) == before + seq![32u8, 32u8]
                    + hint_text(*hint));
            }
        }
        if index > 0 {
            let first = line_push(&mut line, ' ');
            let second = line_push(&mut line, ' ');
            proof {
                assert(first && second);
                assert(line_bytes_of(line) =~= before + seq![32u8, 32u8]);
            }
        }
        push_keys(&mut line, hint);
        let pushed = line_push_str(&mut line, hint.label);
        proof {
            assert(pushed);
            if index == 0 {
                assert(line_bytes_of(line) =~= legend_text(hints@.take(1)));
            } else {
                assert(line_bytes_of(line) =~= legend_text(hints@.take(index as int + 1)));
            }
        }
        index = index + 1;
    }
    proof {
        assert(hints@.take(index as int) =~= hints@);
    }
    line
}

/// The key characters of `n` keys take one byte each, with a `/` between
/// every two.
proof fn lemma_keys_text_len(keys: Seq<Action>)
    ensures
        keys_text(keys).len() == if keys.len() == 0 {
            0
        } else {
            2 * keys.len() - 1
        },
    decreases keys.len(),
{
    if keys.len() > 1 {
        lemma_keys_text_len(keys.drop_last());
    }
}

/// A hint takes two bytes per key — the key and the `/` or space after it —
/// and then its label.
proof fn lemma_hint_text_len(hint: Hint)
    ensures
        hint_text(hint).len() == 2 * hint.hint_keys().len() + hint.hint_label().len(),
{
    lemma_keys_text_len(hint.hint_keys());
}

/// [`compose`], for hints not known to fit: `None` when the line would outgrow
/// [`LEGEND_LEN`], so that a clipped legend is never drawn.
pub fn try_compose(hints: &[Hint]) -> (line: Option<Line>)
    ensures
        line is Some <==> legend_text(hints@).len() <= LEGEND_LEN,
        line matches Some(l) ==> line_bytes_of(l) == legend_text(hints@),
{
    let mut total: usize = 0;
    let mut index: usize = 0;
    proof {
        assert(hints@.take(0) =~= Seq::<Hint>::empty());
    }
    while index < hints.len()
        invariant
            index <= hints@.len(),
            total == legend_text(hints@.take(index as int)).len(),
            total <= LEGEND_LEN,
        decreases hints@.len() - index,
    {
        let hint = &hints[index];
        let ghost next = hints@.take(index as int + 1);
        proof {
            lemma_hint_text_len(*hint);
            lemma_legend_text_grows(hints@, index as int + 1);
            assert(next.drop_last() =~= hints@.take(index as int));
            assert(next.last() == *hint);
            if index == 0 {
                assert(next =~= seq![*hint]);
            }
        }
        let keys = hint.keys.len();
        let label = hint.label.as_bytes().len();
        if keys > LEGEND_LEN || label > LEGEND_LEN {
            return None;
        }
        let separator: usize = if index > 0 {
            2
        } else {
            0
        };
        if total + separator + 2 * keys + label > LEGEND_LEN {
            return None;
        }
        total = total + separator + 2 * keys + label;
        index = index + 1;
    }
    proof {
        assert(hints@.take(index as int) =~= hints@);
    }
    Some(compose(hints))
}

} // verus!
