//! Coin flips, packed into the entropy the final word carries.
//!
//! The entered words fix all but a few of a phrase's entropy bits: 121 of 128
//! for a 12-word phrase, 253 of 256 for a 24-word one. The remaining seven, or
//! three, come from here — one coin flip each.
//!
//! This is the packing alone: how a sequence of flips becomes bits, and in which
//! order. It belongs with the BIP-39 arithmetic rather than with the screen that
//! collects the flips, because getting it backwards produces a valid mnemonic for
//! a different wallet — and nothing downstream could tell.

use vstd::prelude::*;

use crate::bip39::SeedLength;
use vstd::arithmetic::power2::pow2;

verus! {

/// The most coin flips any [`SeedLength`] needs — the 12-word phrase's seven.
pub const MAX_FLIP_COUNT: usize = 7;

/// The flips are packed into a single `u8`: every length's final-word entropy
/// fits [`MAX_FLIP_COUNT`], and that fits a byte, so no flip is ever shifted
/// out of it.
pub proof fn lemma_flips_fit_a_byte(length: SeedLength)
    ensures
        length.final_word_entropy_bits() <= MAX_FLIP_COUNT,
        MAX_FLIP_COUNT <= 8,
{
}

/// One recorded flip.
#[derive(Clone, Copy, PartialEq, Eq, Debug, Structural)]
pub enum Flip {
    Heads,
    Tails,
}

/// The number a run of flips spells read as binary, first flip most
/// significant: heads is 1, tails is 0 — the number a person would write down
/// reading the row left to right.
pub open spec fn binary_value(flips: Seq<Flip>) -> int
    decreases flips.len(),
{
    if flips.len() == 0 {
        0
    } else {
        2 * binary_value(flips.drop_last()) + if flips.last() == Flip::Heads {
            1int
        } else {
            0int
        }
    }
}

/// Whether bit `k` of the `count` low bits of `bits`, counted from the top, is
/// set.
spec fn bit_from_top(bits: u8, count: nat, k: int) -> bool {
    (bits >> ((count - 1 - k) as u8)) & 1u8 == 1u8
}

/// The flips the low `count` bits of `bits` hold, highest first.
spec fn flips_in(bits: u8, count: nat) -> Seq<Flip> {
    Seq::new(
        count,
        |k: int|
            if bit_from_top(bits, count, k) {
                Flip::Heads
            } else {
                Flip::Tails
            },
    )
}

#[derive(Clone, Copy)]
pub struct Flips {
    /// The flips so far, right-aligned: the first flip is the highest of the
    /// [`Self::count`] bits in use. Grown by a shift, so it is already in the
    /// order [`crate::bip39::complete`] wants by the time the last one lands.
    bits: u8,
    count: usize,
    /// Flips the phrase needs: one per bit of entropy its final word carries on
    /// top of the checksum.
    required: usize,
}

impl View for Flips {
    type V = Seq<Flip>;

    /// The flips recorded so far, first flip first.
    closed spec fn view(&self) -> Seq<Flip> {
        flips_in(self.bits, self.count as nat)
    }
}

/// Shifting a flip in moves every earlier one a place up and puts the new one
/// at the bottom.
proof fn lemma_shift_in(bits: u8, count: nat, heads: bool)
    requires
        count < MAX_FLIP_COUNT,
        bits >> (count as u8) == 0,
    ensures
        ({
            let grown = ((bits << 1u8) | if heads {
                1u8
            } else {
                0u8
            }) as u8;
            &&& grown >> ((count + 1) as u8) == 0
            &&& flips_in(grown, count + 1) == flips_in(bits, count).push(
                if heads {
                    Flip::Heads
                } else {
                    Flip::Tails
                },
            )
        }),
{
    let h: u8 = if heads {
        1u8
    } else {
        0u8
    };
    let grown = ((bits << 1u8) | h) as u8;
    let c = count as u8;
    assert(c < 7 && bits >> c == 0 && h <= 1 ==> ((bits << 1u8) | h) >> ((c + 1) as u8) == 0)
        by (bit_vector);
    assert forall|k: int| 0 <= k < count implies bit_from_top(grown, count + 1, k)
        == bit_from_top(bits, count, k) by {
        let s = (count - 1 - k) as u8;
        assert(s < 7 && bits < 128 && h <= 1 ==> (((bits << 1u8) | h) >> ((s + 1) as u8)) & 1u8
            == (bits >> s) & 1u8) by (bit_vector);
        assert(c < 7 && bits >> c == 0 ==> bits < 128) by (bit_vector);
        assert(((count + 1 - 1 - k) as u8) == ((s + 1) as u8));
    }
    assert(h <= 1 ==> (((bits << 1u8) | h) >> 0u8) & 1u8 == h) by (bit_vector);
    assert(bit_from_top(grown, count + 1, count as int) == heads);
    assert(flips_in(grown, count + 1) =~= flips_in(bits, count).push(
        if heads {
            Flip::Heads
        } else {
            Flip::Tails
        },
    ));
}

/// Shifting the bottom flip out drops the last one and keeps the rest.
proof fn lemma_shift_out(bits: u8, count: nat)
    requires
        0 < count <= MAX_FLIP_COUNT,
        bits >> (count as u8) == 0,
    ensures
        (bits >> 1u8) >> ((count - 1) as u8) == 0,
        flips_in(bits >> 1u8, (count - 1) as nat) == flips_in(bits, count).drop_last(),
{
    let c = count as u8;
    assert(0 < c <= 7 && bits >> c == 0 ==> (bits >> 1u8) >> ((c - 1) as u8) == 0)
        by (bit_vector);
    assert forall|k: int| 0 <= k < count - 1 implies bit_from_top(
        bits >> 1u8,
        (count - 1) as nat,
        k,
    ) == bit_from_top(bits, count, k) by {
        let s = (count - 2 - k) as u8;
        assert(s < 7 ==> ((bits >> 1u8) >> s) & 1u8 == (bits >> ((s + 1) as u8)) & 1u8)
            by (bit_vector);
        assert(((count - 1 - k) as u8) == ((s + 1) as u8));
    }
    assert(flips_in(bits >> 1u8, (count - 1) as nat) =~= flips_in(bits, count).drop_last());
}

/// The low `count` bits of `bits`, read as flips, spell `bits` back.
proof fn lemma_bits_are_the_binary_value(bits: u8, count: nat)
    requires
        count <= MAX_FLIP_COUNT,
        bits >> (count as u8) == 0,
    ensures
        binary_value(flips_in(bits, count)) == bits,
    decreases count,
{
    if count == 0 {
        assert(bits >> 0u8 == 0 ==> bits == 0) by (bit_vector);
    } else {
        lemma_shift_out(bits, count);
        lemma_bits_are_the_binary_value(bits >> 1u8, (count - 1) as nat);
        assert(bits as int == 2 * ((bits >> 1u8) as int) + ((bits >> 0u8) & 1u8) as int)
            by (bit_vector);
        assert(((count - 1 - (count - 1)) as u8) == 0u8);
        assert(bit_from_top(bits, count, count - 1) == ((bits >> 0u8) & 1u8 == 1u8));
        assert(((bits >> 0u8) & 1u8) <= 1u8) by (bit_vector);
    }
}

/// Different runs of flips of the same length spell different numbers: the
/// packing loses nothing the user entered.
pub proof fn lemma_distinct_flips_give_distinct_values(a: Seq<Flip>, b: Seq<Flip>)
    requires
        a.len() == b.len(),
        a != b,
    ensures
        binary_value(a) != binary_value(b),
    decreases a.len(),
{
    if a.len() > 0 {
        if a.drop_last() == b.drop_last() {
            assert(a.last() != b.last()) by {
                assert(a =~= a.drop_last().push(a.last()));
                assert(b =~= b.drop_last().push(b.last()));
            }
        } else {
            lemma_distinct_flips_give_distinct_values(a.drop_last(), b.drop_last());
        }
    } else {
        assert(a =~= b);
    }
}

/// What the flip at position `i` of `flips` adds to their value: heads counts
/// two to the power of the flips after it, tails counts nothing.
pub open spec fn flip_weight(flips: Seq<Flip>, i: int) -> int {
    if flips[i] == Flip::Heads {
        pow2((flips.len() - 1 - i) as nat) as int
    } else {
        0
    }
}

/// The weights of the first `n` flips added up.
pub open spec fn weighted_sum(flips: Seq<Flip>, n: nat) -> int
    decreases n,
{
    if n == 0 {
        0
    } else {
        weighted_sum(flips, (n - 1) as nat) + flip_weight(flips, n - 1)
    }
}

/// The first `n` flips of `flips` weigh twice what they weigh without its last.
proof fn lemma_weights_double(flips: Seq<Flip>, n: nat)
    requires
        0 < flips.len(),
        n < flips.len(),
    ensures
        weighted_sum(flips, n) == 2 * weighted_sum(flips.drop_last(), n),
    decreases n,
{
    if n > 0 {
        lemma_weights_double(flips, (n - 1) as nat);
        let i = n - 1;
        let rest = (flips.len() - 1 - i) as nat;
        assert(pow2(rest) == 2 * pow2((rest - 1) as nat)) by {
            vstd::arithmetic::power2::lemma_pow2_unfold(rest);
        }
        assert(flips.drop_last()[i] == flips[i]);
    }
}

/// The value of a run of flips is the sum of their weights, heads at position
/// `i` of `n` counting `2^(n - 1 - i)`: so it is below `2^n`.
pub proof fn lemma_value_is_the_weighted_sum(flips: Seq<Flip>)
    ensures
        binary_value(flips) == weighted_sum(flips, flips.len()),
        0 <= binary_value(flips) < pow2(flips.len()),
    decreases flips.len(),
{
    vstd::arithmetic::power2::lemma_pow2_pos(flips.len());
    if flips.len() > 0 {
        let rest = flips.drop_last();
        lemma_value_is_the_weighted_sum(rest);
        lemma_weights_double(flips, rest.len());
        assert(pow2(0) == 1) by {
            vstd::arithmetic::power2::lemma2_to64();
        }
        assert(pow2(flips.len()) == 2 * pow2(rest.len())) by {
            vstd::arithmetic::power2::lemma_pow2_unfold(flips.len());
        }
    }
}

/// Recording a flip and taking it back leaves the flips as they were.
pub proof fn lemma_undo_takes_back_record(flips: Seq<Flip>, flip: Flip)
    ensures
        flips.push(flip).drop_last() == flips,
{
    assert(flips.push(flip).drop_last() =~= flips);
}

impl Flips {
    #[verifier::type_invariant]
    spec fn is_packed(self) -> bool {
        &&& self.count <= self.required <= MAX_FLIP_COUNT
        &&& self.bits >> (self.count as u8) == 0
    }

    /// Flips the phrase needs in all.
    pub closed spec fn flips_needed(self) -> nat {
        self.required as nat
    }

    pub fn new(length: SeedLength) -> (flips: Self)
        ensures
            flips@ == Seq::<Flip>::empty(),
            flips.flips_needed() == length.final_word_entropy_bits(),
    {
        proof {
            lemma_flips_fit_a_byte(length);
            assert(0u8 >> 0u8 == 0) by (bit_vector);
        }
        let flips = Self { bits: 0, count: 0, required: length.final_word_entropy_bits() };
        assert(flips@ =~= Seq::<Flip>::empty());
        flips
    }

    /// Flips the phrase needs in all, which is also the number of slots in the
    /// row.
    pub fn required(&self) -> (required: usize)
        ensures
            required == self.flips_needed(),
            self@.len() <= self.flips_needed() <= MAX_FLIP_COUNT,
    {
        proof {
            use_type_invariant(self);
        }
        self.required
    }

    /// Flips recorded so far, which is also the slot the next one lands in.
    pub fn count(&self) -> (count: usize)
        ensures
            count == self@.len(),
            count <= self.flips_needed() <= MAX_FLIP_COUNT,
    {
        proof {
            use_type_invariant(self);
        }
        self.count
    }

    pub fn is_complete(&self) -> (complete: bool)
        ensures
            complete == (self@.len() == self.flips_needed()),
            self@.len() <= self.flips_needed(),
    {
        proof {
            use_type_invariant(self);
        }
        self.count == self.required
    }

    /// The flip recorded in `index`, or `None` for a slot not yet flipped —
    /// which is what lets the screen draw the row without knowing anything about
    /// how the bits are packed.
    pub fn flip(&self, index: usize) -> (flip: Option<Flip>)
        ensures
            flip == if index < self@.len() {
                Some(self@[index as int])
            } else {
                None
            },
    {
        proof {
            use_type_invariant(self);
        }
        if index >= self.count {
            return None;
        }

        // Slot `index` sits this many places above the bottom of what has been
        // entered so far, which holds mid-entry as well as once the row is full.
        if (self.bits >> ((self.count - 1 - index) as u8)) & 1 == 1 {
            Some(Flip::Heads)
        } else {
            Some(Flip::Tails)
        }
    }

    /// The flips as the low [`Self::required`] bits of a byte, or `None` until every
    /// one of them is in.
    ///
    /// Withheld rather than returned short: a partial byte reads as a complete
    /// one — three flips would come out as four tails followed by them — and
    /// would complete a phrase the user never authorised.
    pub fn entropy(&self) -> (entropy: Option<u8>)
        ensures
            entropy is Some <==> self@.len() == self.flips_needed(),
            entropy matches Some(value) ==> value == binary_value(self@),
    {
        proof {
            use_type_invariant(self);
            lemma_bits_are_the_binary_value(self.bits, self.count as nat);
        }
        if self.is_complete() {
            Some(self.bits)
        } else {
            None
        }
    }

    /// Appends a flip. Returns whether it was taken: once every flip is in,
    /// another would shift the first one out of the byte, changing a phrase the
    /// user may already have written down, so it is refused.
    ///
    /// Shifted in rather than or-ed at a fixed position, so the value stays
    /// right-aligned as it grows and the first flip ends up the highest bit —
    /// the same direction [`crate::bip39::complete`] packs the words in.
    pub fn record(&mut self, flip: Flip) -> (taken: bool)
        ensures
            taken == (old(self)@.len() < old(self).flips_needed()),
            taken ==> final(self)@ == old(self)@.push(flip),
            !taken ==> *final(self) == *old(self),
            final(self).flips_needed() == old(self).flips_needed(),
        no_unwind
    {
        proof {
            use_type_invariant(&*self);
        }
        if self.count == self.required {
            return false;
        }
        let heads = match flip {
            Flip::Heads => true,
            Flip::Tails => false,
        };
        proof {
            lemma_shift_in(self.bits, self.count as nat, heads);
        }
        let bit: u8 = if heads {
            1
        } else {
            0
        };
        *self = Flips {
            bits: ((self.bits << 1u8) | bit) as u8,
            count: self.count + 1,
            required: self.required,
        };
        true
    }

    /// Takes the last flip back. Returns whether there was one to take.
    pub fn undo(&mut self) -> (undone: bool)
        ensures
            undone == (old(self)@.len() > 0),
            undone ==> final(self)@ == old(self)@.drop_last(),
            !undone ==> *final(self) == *old(self),
            final(self).flips_needed() == old(self).flips_needed(),
        no_unwind
    {
        proof {
            use_type_invariant(&*self);
        }
        if self.count == 0 {
            return false;
        }
        proof {
            lemma_shift_out(self.bits, self.count as nat);
        }
        *self = Flips { bits: self.bits >> 1u8, count: self.count - 1, required: self.required };
        true
    }
}

} // verus!
