use vstd::prelude::*;

use crate::bip39_wordlist::LETTERS;

verus! {

/// Bit `i` of `x`.
pub open spec fn bit(x: u32, i: u32) -> bool {
    (x >> i) & 1u32 == 1u32
}

proof fn lemma_bit_test(x: u32, i: u32)
    requires
        i < 32,
    ensures
        (x & (1u32 << i) != 0) == bit(x, i),
{
    assert(i < 32 ==> ((x & (1u32 << i) != 0) == ((x >> i) & 1u32 == 1u32))) by (bit_vector);
}

proof fn lemma_bit_set(x: u32, i: u32, j: u32)
    requires
        i < 26,
        j < 32,
        x >> 26u32 == 0,
    ensures
        bit(x | (1u32 << i), j) == (bit(x, j) || i == j),
        (x | (1u32 << i)) >> 26u32 == 0,
{
    assert(i < 26 && j < 32 ==> ((((x | (1u32 << i)) >> j) & 1u32 == 1u32) == (((x >> j) & 1u32
        == 1u32) || i == j))) by (bit_vector);
    assert(i < 26 && x >> 26u32 == 0 ==> (x | (1u32 << i)) >> 26u32 == 0) by (bit_vector);
}

proof fn lemma_high_bits_clear(x: u32, j: u32)
    requires
        x >> 26u32 == 0,
        26 <= j < 32,
    ensures
        !bit(x, j),
{
    assert(x >> 26u32 == 0 && 26 <= j < 32 ==> (x >> j) & 1u32 == 0) by (bit_vector);
}

/// The position `steps` places on from `index` around the alphabet, wrapping
/// past `Z` walking forwards and past `A` walking backwards.
pub open spec fn walk(index: int, steps: int, forwards: bool) -> int {
    if forwards {
        (index % 26 + steps) % 26
    } else {
        (index % 26 + 26 - steps % 26) % 26
    }
}

/// How many steps from `index` the walk reaches `letter`: between 1 and 26,
/// 26 being a whole lap back to `index` itself.
pub open spec fn walk_distance(index: int, letter: int, forwards: bool) -> int {
    if forwards {
        (letter - index % 26 + 25) % 26 + 1
    } else {
        (index % 26 - letter + 25) % 26 + 1
    }
}

#[verifier::spinoff_prover]
#[verifier::rlimit(40)]
proof fn lemma_walk_step(index: int, steps: int, forwards: bool)
    requires
        0 <= index,
        1 <= steps <= 26,
    ensures
        0 <= walk(index, steps, forwards) < 26,
        walk(index, steps, forwards) == if forwards {
            (walk(index, steps - 1, forwards) + 1) % 26
        } else {
            (walk(index, steps - 1, forwards) + 25) % 26
        },
{
    let s = index % 26;
    assert(0 <= s < 26);
    if forwards {
        // The walk before the step, counted from `A`.
        let x = s + steps - 1;
        if x + 1 < 26 {
            assert(x % 26 == x && (x + 1) % 26 == x + 1);
        } else if x + 1 == 26 {
            assert(x % 26 == 25 && (x + 1) % 26 == 0);
        } else {
            assert(x % 26 == x - 26 && (x + 1) % 26 == x - 25);
        }
    } else {
        assert((steps - 1) % 26 == steps - 1);
        // The walk before the step, counted from `A`.
        let y = s + 27 - steps;
        if steps < 26 {
            assert(steps % 26 == steps);
            if y - 1 < 26 {
                assert((y - 1) % 26 == y - 1);
            } else {
                assert((y - 1) % 26 == y - 27);
            }
            if y < 26 {
                assert(y % 26 == y);
            } else {
                assert(y % 26 == y - 26);
            }
        } else {
            assert(steps % 26 == 0);
            assert((s + 26) % 26 == s);
            if y < 26 {
                assert(y % 26 == y);
            } else {
                assert(y % 26 == 0);
            }
        }
    }
}

#[verifier::spinoff_prover]
proof fn lemma_walk_distance(index: int, letter: int, forwards: bool)
    requires
        0 <= index,
        0 <= letter < 26,
    ensures
        1 <= walk_distance(index, letter, forwards) <= 26,
        walk(index, walk_distance(index, letter, forwards), forwards) == letter,
        forall|k: int|
            1 <= k <= 26 && walk(index, k, forwards) == letter ==> k == walk_distance(
                index,
                letter,
                forwards,
            ),
{
    let s = index % 26;
    assert(0 <= s < 26);
    let d = walk_distance(index, letter, forwards);
    if forwards {
        if letter > s {
            assert(d == letter - s);
        } else {
            assert(d == letter - s + 26);
        }
    } else {
        if letter < s {
            assert(d == s - letter);
        } else {
            assert(d == s - letter + 26);
        }
    }
    assert(d % 26 == d || d == 26);
    assert forall|k: int|
        1 <= k <= 26 && walk(index, k, forwards) == letter implies k == d by {
        if k < 26 {
            assert(k % 26 == k);
        } else {
            assert(k % 26 == 0);
        }
    }
}

/// A set of letters, held as one bit per position in the alphabet.
///
/// Small enough to copy and to keep as derived state on the entry screen, which
/// is the point: the alphabet strip is redrawn from it on every keypress.
#[derive(Clone, Copy, PartialEq, Eq, Debug, Structural)]
pub struct LetterSet(u32);

impl View for LetterSet {
    type V = Set<int>;

    closed spec fn view(&self) -> Set<int> {
        Set::new(|i: int| 0 <= i < LETTERS && bit(self.0, i as u32))
    }
}

impl Default for LetterSet {
    fn default() -> (set: Self)
        ensures
            set@ == Set::<int>::empty(),
    {
        Self::empty()
    }
}

impl LetterSet {
    /// The set with no letters in it.
    pub fn empty() -> (set: Self)
        ensures
            set@ == Set::<int>::empty(),
    {
        proof {
            assert(0u32 >> 26u32 == 0) by (bit_vector);
        }
        let set = Self(0);
        proof {
            assert forall|i: int| #[trigger] set@.contains(i) implies false by {
                let j = i as u32;
                assert(j < 26 ==> (0u32 >> j) & 1u32 == 0) by (bit_vector);
            }
            assert(set@ =~= Set::<int>::empty());
        }
        set
    }

    #[verifier::type_invariant]
    spec fn within_alphabet(self) -> bool {
        self.0 >> 26u32 == 0
    }

    /// Every member is a position in the alphabet.
    pub proof fn lemma_members_are_letters(self)
        ensures
            forall|i: int| #[trigger] self@.contains(i) ==> 0 <= i < LETTERS,
    {
    }

    pub fn contains(self, index: usize) -> (member: bool)
        ensures
            member == self@.contains(index as int),
    {
        if index < LETTERS {
            proof {
                lemma_bit_test(self.0, index as u32);
            }
            self.0 & (1u32 << (index as u32)) != 0
        } else {
            false
        }
    }

    pub fn is_empty(self) -> (empty: bool)
        ensures
            empty == (self@ == Set::<int>::empty()),
    {
        proof {
            use_type_invariant(&self);
            let x = self.0;
            if x == 0 {
                assert forall|i: int| #[trigger] self@.contains(i) implies false by {
                    let j = i as u32;
                    assert(x == 0 && j < 26 ==> (x >> j) & 1u32 == 0) by (bit_vector);
                }
                assert(self@ =~= Set::<int>::empty());
            } else {
                vstd::std_specs::bits::axiom_u32_trailing_zeros(x);
                let t = vstd::std_specs::bits::u32_trailing_zeros(x);
                if t >= 26 {
                    lemma_high_bits_clear(x, t);
                }
                assert(self@.contains(t as int));
            }
        }
        self.0 == 0
    }

    /// How many letters are in the set.
    pub fn count(self) -> (count: usize)
        ensures
            count == self@.len(),
            count <= LETTERS,
    {
        let ghost members = self@;
        let mut count: usize = 0;
        let mut index: usize = 0;
        let ghost mut seen = Set::<int>::empty();
        while index < LETTERS
            invariant
                index <= LETTERS,
                members == self@,
                seen == members.filter(|i: int| i < index),
                seen.finite(),
                count == seen.len(),
                count <= index,
            decreases LETTERS - index,
        {
            let ghost before = seen;
            if self.contains(index) {
                proof {
                    seen = seen.insert(index as int);
                }
                count = count + 1;
            }
            proof {
                assert(seen =~= members.filter(|i: int| i < index + 1));
            }
            index = index + 1;
        }
        proof {
            assert(seen =~= members);
        }
        count
    }

    /// The lowest letter in the set, which is where the cursor goes when a word
    /// starts or changes length.
    pub fn first(self) -> (first: Option<usize>)
        ensures
            first is None <==> self@ == Set::<int>::empty(),
            first matches Some(i) ==> self@.contains(i as int) && forall|j: int|
                0 <= j < i ==> !self@.contains(j),
    {
        proof {
            use_type_invariant(&self);
        }
        if self.is_empty() {
            None
        } else {
            let lowest = self.0.trailing_zeros();
            proof {
                let x = self.0;
                vstd::std_specs::bits::axiom_u32_trailing_zeros(x);
                assert(self@ != Set::<int>::empty());
                let m = choose|m: int| #[trigger] self@.contains(m);
                if !self@.contains(m) {
                    assert(self@ =~= Set::<int>::empty());
                }
                assert(bit(x, m as u32));
                assert(lowest <= m);
                assert forall|j: int| 0 <= j < lowest implies !self@.contains(j) by {
                    assert(!bit(x, j as u32));
                }
            }
            Some(lowest as usize)
        }
    }

    /// The next letter after `index`, wrapping past `Z`. `index` itself need not
    /// be in the set, and is returned when it is the only one.
    pub fn next_after(self, index: usize) -> (next: Option<usize>)
        ensures
            next is None <==> self@ == Set::<int>::empty(),
            next matches Some(m) ==> self@.contains(m as int) && forall|j: int|
                1 <= j < walk_distance(index as int, m as int, true) ==> !self@.contains(
                    walk(index as int, j, true),
                ),
    {
        self.step_from(index, true)
    }

    /// The previous letter before `index`, wrapping past `A`.
    pub fn prev_before(self, index: usize) -> (prev: Option<usize>)
        ensures
            prev is None <==> self@ == Set::<int>::empty(),
            prev matches Some(m) ==> self@.contains(m as int) && forall|j: int|
                1 <= j < walk_distance(index as int, m as int, false) ==> !self@.contains(
                    walk(index as int, j, false),
                ),
    {
        self.step_from(index, false)
    }

    /// Adds `index`, if it is a position in the alphabet.
    pub fn insert(&mut self, index: usize)
        ensures
            index < LETTERS ==> final(self)@ == old(self)@.insert(index as int),
            index >= LETTERS ==> final(self)@ == old(self)@,
    {
        proof {
            use_type_invariant(&*self);
        }
        if index < LETTERS {
            let ghost before = *self;
            proof {
                lemma_bit_set(before.0, index as u32, 0);
            }
            let updated = Self(self.0 | (1u32 << (index as u32)));
            proof {
                assert forall|j: int| #[trigger] updated@.contains(j) == before@.insert(
                    index as int,
                ).contains(j) by {
                    if 0 <= j < 26 {
                        lemma_bit_set(before.0, index as u32, j as u32);
                    }
                }
                assert(updated@ =~= before@.insert(index as int));
            }
            *self = updated;
        }
    }

    /// Walks the whole alphabet from `index` in the given direction, stopping at
    /// the first letter in the set.
    fn step_from(self, index: usize, forwards: bool) -> (found: Option<usize>)
        ensures
            found is None <==> self@ == Set::<int>::empty(),
            found matches Some(m) ==> m < LETTERS && self@.contains(m as int) && forall|j: int|
                1 <= j < walk_distance(index as int, m as int, forwards) ==> !self@.contains(
                    walk(index as int, j, forwards),
                ),
    {
        let start = index % LETTERS;
        let mut current = start;
        let mut steps: usize = 0;
        proof {
            assert(walk(index as int, 0, forwards) == start) by {
                assert((start as int + 0) % 26 == start);
                assert((start as int + 26 - 0int % 26) % 26 == start);
            }
        }
        while steps < LETTERS
            invariant
                start == index % 26,
                steps <= LETTERS,
                current == walk(index as int, steps as int, forwards),
                forall|j: int|
                    1 <= j <= steps ==> !self@.contains(#[trigger] walk(index as int, j, forwards)),
            decreases LETTERS - steps,
        {
            proof {
                lemma_walk_step(index as int, steps + 1, forwards);
            }
            current = if forwards {
                (current + 1) % LETTERS
            } else {
                (current + LETTERS - 1) % LETTERS
            };
            steps = steps + 1;
            if self.contains(current) {
                proof {
                    lemma_walk_distance(index as int, current as int, forwards);
                }
                return Some(current);
            }
        }
        proof {
            assert forall|i: int| #[trigger] self@.contains(i) implies false by {
                lemma_walk_distance(index as int, i, forwards);
                let k = walk_distance(index as int, i, forwards);
                assert(!self@.contains(walk(index as int, k, forwards)));
            }
            assert(self@ =~= Set::<int>::empty());
        }
        None
    }
}

} // verus!
