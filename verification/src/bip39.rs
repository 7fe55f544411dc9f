//! Turning entered words into a BIP-39 mnemonic.
//!
//! The entry screen collects every word but the last; this module resolves what
//! was typed against the official wordlist and derives the final word that makes
//! the phrase a valid mnemonic. Both lengths the device builds go through the
//! same code, told apart by a [`SeedLength`].
//!
//! ## Why the last word is not just a checksum
//!
//! A 12-word mnemonic encodes 132 bits — 128 bits of entropy followed by a 4-bit
//! checksum — split into twelve 11-bit words. Eleven words only account for
//! 11 x 11 = 121 of those bits, so the twelfth carries the remaining 7 bits of
//! entropy as well as the checksum. A 24-word mnemonic is the same shape at
//! twice the size: 256 bits of entropy and an 8-bit checksum, so the
//! twenty-fourth word carries 3 bits of entropy on top of the checksum.
//!
//! Those bits come from the user, as coin flips entered on the keypad — see
//! [`crate::flips`].

use sha2::{Digest, Sha256};
use vstd::prelude::*;
use vstd::string::StringSliceAdditionalSpecFns;

use crate::bip39_wordlist::{
    entry_with_bytes, in_list, index_of, lemma_list_index,
    lemma_list_word_bytes, lemma_same_bytes_same_chars, lemma_words_are_distinct,
    lemma_words_are_lowercase_letters, list_index, same_word, starts_with, word_at, word_bytes,
    wordlist, COUNT,
};
use crate::bounded::{word_as_str, word_bytes_of, Word};
use crate::wordlist_data::word_str;
use crate::needle::{needle_of, Needle};

verus! {

/// The mnemonic lengths the device builds.
#[derive(Clone, Copy, PartialEq, Eq, Debug, Structural)]
pub enum SeedLength {
    Words12,
    Words24,
}

impl SeedLength {
    /// Every length, so the arithmetic below can be checked for each of them.
    pub const ALL: [Self; 2] = [Self::Words12, Self::Words24];

    /// Words in the finished mnemonic.
    #[verifier::allow_in_spec]
    pub fn total_words(self) -> usize
        returns
            (match self {
                SeedLength::Words12 => 12usize,
                SeedLength::Words24 => 24usize,
            }),
    {
        match self {
            Self::Words12 => 12,
            Self::Words24 => 24,
        }
    }

    /// Words the user supplies. The mnemonic's last word is derived from these
    /// rather than entered.
    #[verifier::allow_in_spec]
    pub fn entered_words(self) -> usize
        returns
            (match self {
                SeedLength::Words12 => 11usize,
                SeedLength::Words24 => 23usize,
            }),
    {
        self.total_words() - 1
    }

    /// Entropy bits the mnemonic encodes.
    #[verifier::allow_in_spec]
    pub fn entropy_bits(self) -> usize
        returns
            (match self {
                SeedLength::Words12 => 128usize,
                SeedLength::Words24 => 256usize,
            }),
    {
        match self {
            Self::Words12 => 128,
            Self::Words24 => 256,
        }
    }

    /// Checksum bits, `ENT / 32` per BIP-39.
    #[verifier::allow_in_spec]
    pub fn checksum_bits(self) -> usize
        returns
            (match self {
                SeedLength::Words12 => 4usize,
                SeedLength::Words24 => 8usize,
            }),
    {
        self.entropy_bits() / 32
    }

    /// Bits of fresh entropy the final word carries on top of the checksum.
    #[verifier::allow_in_spec]
    pub fn final_word_entropy_bits(self) -> usize
        returns
            (match self {
                SeedLength::Words12 => 7usize,
                SeedLength::Words24 => 3usize,
            }),
    {
        self.entropy_bits() - BITS_PER_WORD * self.entered_words()
    }
}

/// Getting this arithmetic wrong would produce phrases no other wallet
/// accepts, and only for some inputs, so it holds for every length: the words
/// carry exactly the entropy and the checksum, the final word carries the rest
/// of the entropy and the checksum, both fit a byte, the entropy is whole bytes,
/// and the entered words fit the storage sized for them.
pub proof fn lemma_length_arithmetic(length: SeedLength)
    ensures
        BITS_PER_WORD * length.total_words() == length.entropy_bits() + length.checksum_bits(),
        length.final_word_entropy_bits() + length.checksum_bits() == BITS_PER_WORD,
        length.final_word_entropy_bits() <= 8,
        length.checksum_bits() <= 8,
        length.entropy_bits() % 8 == 0,
        length.entered_words() <= MAX_WORD_COUNT,
        length.entered_words() + 1 == length.total_words(),
        length.checksum_bits() == length.entropy_bits() / 32,
{
}

/// Words the user supplies for the longest [`SeedLength`]: what storage for
/// entered words is sized to.
pub const MAX_WORD_COUNT: usize = 23;

/// Words in the longest finished mnemonic.
pub const MAX_WORD_COUNT_TOTAL: usize = MAX_WORD_COUNT + 1;

/// Bits each word contributes: the wordlist has 2^11 entries.
pub const BITS_PER_WORD: usize = 11;

/// Bytes the longest mnemonic's bits — entropy and checksum — pack into.
const MAX_PACKED_BYTES: usize = 33;

/// `count` bits of `value`, most significant first.
pub open spec fn value_bits(value: u16, count: nat) -> Seq<bool> {
    Seq::new(count, |k: int| (value >> ((count - 1 - k) as u16)) & 1u16 == 1u16)
}

/// The bits of a run of word indices, eleven each, first word first.
pub open spec fn indices_bits(indices: Seq<u16>) -> Seq<bool>
    decreases indices.len(),
{
    if indices.len() == 0 {
        Seq::empty()
    } else {
        indices_bits(indices.drop_last()) + value_bits(indices.last(), 11)
    }
}

/// 1 for a set bit at position `q`, 0 for a clear one or one past the end.
pub open spec fn bit_value(bits: Seq<bool>, q: int) -> int {
    if 0 <= q < bits.len() && bits[q] {
        1
    } else {
        0
    }
}

/// Byte `j` of `bits` packed eight to a byte, most significant bit first, with
/// positions past the end read as 0.
pub open spec fn packed_byte(bits: Seq<bool>, j: int) -> int {
    bit_value(bits, 8 * j) * 128 + bit_value(bits, 8 * j + 1) * 64 + bit_value(bits, 8 * j + 2)
        * 32 + bit_value(bits, 8 * j + 3) * 16 + bit_value(bits, 8 * j + 4) * 8 + bit_value(
        bits,
        8 * j + 5,
    ) * 4 + bit_value(bits, 8 * j + 6) * 2 + bit_value(bits, 8 * j + 7)
}

/// The first `byte_count` bytes of `bits` packed most significant bit first —
/// the order BIP-39 hashes the entropy in.
pub open spec fn packed(bits: Seq<bool>, byte_count: nat) -> Seq<u8> {
    Seq::new(byte_count, |j: int| packed_byte(bits, j) as u8)
}

/// The SHA-256 digest of `data`.
pub uninterp spec fn sha256(data: Seq<u8>) -> Seq<u8>;

/// The low [`SeedLength::final_word_entropy_bits`] of `extra`: the rest are
/// ignored.
pub open spec fn masked_extra(length: SeedLength, extra: u8) -> u16 {
    (extra as u16) & (((1u16 << (length.final_word_entropy_bits() as u16)) - 1) as u16)
}

/// The entropy a phrase of `length` encodes: the entered words' indices
/// followed by the final word's entropy bits, as the bytes BIP-39 hashes.
pub open spec fn entropy_of(length: SeedLength, indices: Seq<u16>, extra: u8) -> Seq<u8> {
    packed(
        indices_bits(indices) + value_bits(
            masked_extra(length, extra),
            length.final_word_entropy_bits() as nat,
        ),
        (length.entropy_bits() / 8) as nat,
    )
}

/// The final word's index given the first byte of the digest: the entropy bits
/// it carries, followed by the checksum, which is the digest's leading bits.
pub open spec fn index_with_digest(length: SeedLength, extra: u8, first_byte: u8) -> u16 {
    (masked_extra(length, extra) << (length.checksum_bits() as u16)) | ((first_byte >> ((8
        - length.checksum_bits()) as u8)) as u16)
}

/// The index of the final word: its entropy bits followed by the BIP-39
/// checksum, the leading bits of SHA-256 over the entropy.
pub open spec fn final_index(length: SeedLength, indices: Seq<u16>, extra: u8) -> u16 {
    index_with_digest(length, extra, sha256(entropy_of(length, indices, extra))[0])
}

/// The indices of the phrase the entered `indices` and `extra` make.
pub open spec fn phrase_indices(length: SeedLength, indices: Seq<u16>, extra: u8) -> Seq<u16> {
    indices.push(final_index(length, indices, extra))
}

/// The words at `indices` of the list.
pub open spec fn phrase_words(indices: Seq<u16>) -> Seq<Seq<char>> {
    indices.map_values(|i: u16| wordlist()[i as int])
}

/// The slots of a mnemonic whose phrase is the words at `indices`: each of those
/// words as the list's own literal, and every slot past the phrase empty.
pub open spec fn phrase_slots(indices: Seq<u16>) -> Seq<&'static str> {
    Seq::new(
        MAX_WORD_COUNT_TOTAL as nat,
        |k: int|
            if k < indices.len() {
                word_str(indices[k] as int)
            } else {
                ""
            },
    )
}

/// Whether every index is in the list.
pub open spec fn all_in_list(indices: Seq<u16>) -> bool {
    forall|k: int| 0 <= k < indices.len() ==> #[trigger] indices[k] < COUNT
}

/// Whether word `i` of the list starts with `needle`.
pub open spec fn prefixed(needle: Seq<u8>, i: int) -> bool {
    needle.len() <= word_bytes(i).len() && word_bytes(i).take(needle.len() as int) == needle
}

/// Whether word `i` of the list is spelled exactly `needle`.
pub open spec fn spells(needle: Seq<u8>, i: int) -> bool {
    0 <= i < COUNT && word_bytes(i) == needle
}

/// Whether word `i` is the one word of the list that starts with `needle`.
pub open spec fn only_prefixed(needle: Seq<u8>, i: int) -> bool {
    &&& 0 <= i < COUNT
    &&& prefixed(needle, i)
    &&& forall|j: int| 0 <= j < COUNT && #[trigger] prefixed(needle, j) ==> j == i
}

/// The word `input` resolves to: the word it spells in full, or else the one
/// word that starts with it, matched case-insensitively; `None` when it spells
/// nothing, is empty, or starts several words.
pub open spec fn resolve_of(input: Seq<u8>) -> Option<int> {
    match needle_of(input) {
        None => None,
        Some(needle) => if needle.len() == 0 {
            None
        } else if exists|i: int| #[trigger] spells(needle, i) {
            Some(choose|i: int| #[trigger] spells(needle, i))
        } else if exists|i: int| #[trigger] only_prefixed(needle, i) {
            Some(choose|i: int| #[trigger] only_prefixed(needle, i))
        } else {
            None
        },
    }
}

/// Whether every input resolves to a word.
pub open spec fn all_resolve(inputs: Seq<Seq<u8>>) -> bool {
    forall|k: int| 0 <= k < inputs.len() ==> (#[trigger] resolve_of(inputs[k])) is Some
}

/// The indices the inputs resolve to.
pub open spec fn resolved(inputs: Seq<Seq<u8>>) -> Seq<u16> {
    Seq::new(inputs.len(), |k: int| (resolve_of(inputs[k])->0) as u16)
}

/// The bytes of entered words.
pub open spec fn entered_bytes(words: Seq<Word>) -> Seq<Seq<u8>> {
    words.map_values(|w: Word| word_bytes_of(w))
}

/// The indices of the phrase [`complete`] builds from `inputs`.
pub open spec fn complete_of(length: SeedLength, inputs: Seq<Seq<u8>>, extra: u8) -> Option<
    Seq<u16>,
> {
    if inputs.len() == length.entered_words() && all_resolve(inputs) {
        Some(phrase_indices(length, resolved(inputs), extra))
    } else {
        None
    }
}

/// Whether the last of `indices` is the final word the others imply, given
/// the entropy bits it carries.
pub open spec fn checks_out(length: SeedLength, indices: Seq<u16>) -> bool {
    let entered = indices.drop_last();
    let last = indices.last();
    final_index(length, entered, (last >> (length.checksum_bits() as u16)) as u8) == last
}

/// The indices of the phrase [`parse`] reads from `inputs`.
pub open spec fn parse_of(length: SeedLength, inputs: Seq<Seq<u8>>) -> Option<Seq<u16>> {
    if inputs.len() == length.total_words() && all_resolve(inputs) && checks_out(
        length,
        resolved(inputs),
    ) {
        Some(resolved(inputs))
    } else {
        None
    }
}

/// The list positions of `words`.
pub open spec fn indices_of(words: Seq<Seq<char>>) -> Seq<u16> {
    words.map_values(|w: Seq<char>| list_index(w) as u16)
}

/// Position by position XOR of two runs of indices.
pub open spec fn xor_indices(a: Seq<u16>, b: Seq<u16>) -> Seq<u16> {
    Seq::new(a.len(), |k: int| a[k] ^ b[k])
}

/// The indices of the phrase [`xor`] builds from the phrases `a` and `b`.
pub open spec fn xor_of(length: SeedLength, a: Seq<Seq<char>>, b: Seq<Seq<char>>, extra: u8) -> Seq<
    u16,
> {
    let entered = length.entered_words() as int;
    phrase_indices(
        length,
        xor_indices(indices_of(a).take(entered), indices_of(b).take(entered)),
        extra,
    )
}

/// A finished mnemonic: the entered words followed by the derived final one, all
/// in the canonical lowercase spelling.
///
/// Sized for the longest [`SeedLength`], so either fits without a heap; only
/// [`Self::words`] says how many of the slots are the phrase.
#[derive(Clone, Copy, PartialEq, Eq, Debug)]
pub struct Mnemonic {
    words: [&'static str; MAX_WORD_COUNT_TOTAL],
    length: SeedLength,
}

impl View for Mnemonic {
    type V = Seq<Seq<char>>;

    /// The phrase, first word first.
    closed spec fn view(&self) -> Seq<Seq<char>> {
        Seq::new(self.length.total_words() as nat, |k: int| self.words@[k]@)
    }
}

impl Mnemonic {
    #[verifier::type_invariant]
    spec fn words_are_listed(self) -> bool {
        &&& forall|k: int|
            0 <= k < self.length.total_words() ==> in_list(#[trigger] self.words@[k]@)
        &&& forall|k: int|
            self.length.total_words() <= k < MAX_WORD_COUNT_TOTAL ==> #[trigger] self.words@[k]
                == ""
    }

    /// Every slot, the phrase's words first and the unused ones after.
    pub closed spec fn slots(self) -> Seq<&'static str> {
        self.words@
    }

    /// The length the phrase was built at.
    pub closed spec fn phrase_length(self) -> SeedLength {
        self.length
    }

    /// The phrase, first word first.
    pub fn words(&self) -> (words: &[&'static str])
        ensures
            words@.len() == self@.len(),
            self@.len() == self.phrase_length().total_words(),
            forall|k: int| 0 <= k < words@.len() ==> (#[trigger] words@[k])@ == self@[k],
            forall|k: int| 0 <= k < self@.len() ==> in_list(#[trigger] self@[k]),
    {
        proof {
            use_type_invariant(self);
        }
        vstd::slice::slice_subrange(self.words.as_slice(), 0, self.length.total_words())
    }

    pub fn length(&self) -> (length: SeedLength)
        ensures
            length == self.phrase_length(),
    {
        self.length
    }

    /// The word derived rather than entered.
    pub fn final_word(&self) -> (word: &'static str)
        ensures
            word@ == self@[self.phrase_length().entered_words() as int],
    {
        self.words[self.length.entered_words()]
    }
}

/// A mnemonic is its length and its slots: two that agree on both are the same
/// value, so two phrases built from the same indices compare equal as wholes.
pub proof fn lemma_slots_fix_the_mnemonic(a: Mnemonic, b: Mnemonic)
    requires
        a.phrase_length() == b.phrase_length(),
        a.slots() == b.slots(),
    ensures
        a == b,
{
    broadcast use vstd::array::group_array_axioms;

    assert(a.words =~= b.words);
}

/// `sha2::Sha256::digest`: the SHA-256 digest of `data`. The contract names the
/// digest rather than stating it; what it says is that the digest is a function
/// of `data` alone.
#[verifier::external_body]
fn sha256_digest(data: &[u8]) -> (digest: [u8; 32])
    ensures
        digest@ == sha256(data@),
{
    Sha256::digest(data).into()
}

/// `bytes` holds `bits` packed most significant bit first, with every position
/// past the end still clear.
spec fn holds_bits(bytes: Seq<u8>, bits: Seq<bool>) -> bool {
    &&& bytes.len() == MAX_PACKED_BYTES
    &&& bits.len() <= 8 * MAX_PACKED_BYTES
    &&& forall|j: int| 0 <= j < MAX_PACKED_BYTES ==> bytes[j] as int == #[trigger] packed_byte(bits, j)
    &&& bits.len() % 8 != 0 ==> bytes[((bits.len() / 8) as int) as int] & (0xffu8 >> ((bits.len() % 8) as u8)) == 0
}

/// `bytes` with bit `position` set if `set`.
spec fn with_bit(bytes: Seq<u8>, position: int, set: bool) -> Seq<u8> {
    if set {
        bytes.update(position / 8, bytes[position / 8] | (0x80u8 >> ((position % 8) as u8)))
    } else {
        bytes
    }
}

proof fn lemma_bit_mask(x: u8, r: u8, next: u8)
    requires
        r < 8,
        next == r + 1,
        x & (0xffu8 >> r) == 0,
    ensures
        (x | (0x80u8 >> r)) as int == x as int + (0x80u8 >> r) as int,
        r < 7 ==> x & (0xffu8 >> next) == 0,
        r < 7 ==> (x | (0x80u8 >> r)) & (0xffu8 >> next) == 0,
        (0x80u8 >> r) as int == if r == 0 {
            128int
        } else if r == 1 {
            64int
        } else if r == 2 {
            32int
        } else if r == 3 {
            16int
        } else if r == 4 {
            8int
        } else if r == 5 {
            4int
        } else if r == 6 {
            2int
        } else {
            1int
        },
{
    assert(r < 8 && x & (0xffu8 >> r) == 0 ==> (x | (0x80u8 >> r)) as int == x as int + (0x80u8
        >> r) as int) by (bit_vector);
    assert(r < 7 && next == r + 1 && x & (0xffu8 >> r) == 0 ==> x & (0xffu8 >> next) == 0 && (x
        | (0x80u8 >> r)) & (0xffu8 >> next) == 0) by (bit_vector);
    assert(r < 8 ==> (0x80u8 >> r) == if r == 0 {
        128u8
    } else if r == 1 {
        64u8
    } else if r == 2 {
        32u8
    } else if r == 3 {
        16u8
    } else if r == 4 {
        8u8
    } else if r == 5 {
        4u8
    } else if r == 6 {
        2u8
    } else {
        1u8
    }) by (bit_vector);
}

proof fn lemma_other_byte_unchanged(bits: Seq<bool>, set: bool, j: int)
    requires
        j != (bits.len() / 8) as int,
    ensures
        packed_byte(bits.push(set), j) == packed_byte(bits, j),
{
    let longer = bits.push(set);
    let p = bits.len() as int;
    assert forall|q: int| 8 * j <= q < 8 * j + 8 implies bit_value(longer, q) == bit_value(
        bits,
        q,
    ) by {
        assert(q != p);
        if 0 <= q < p {
            assert(longer[q] == bits[q]);
        }
    }
    assert(bit_value(longer, 8 * j) == bit_value(bits, 8 * j));
    assert(bit_value(longer, 8 * j + 1) == bit_value(bits, 8 * j + 1));
    assert(bit_value(longer, 8 * j + 2) == bit_value(bits, 8 * j + 2));
    assert(bit_value(longer, 8 * j + 3) == bit_value(bits, 8 * j + 3));
    assert(bit_value(longer, 8 * j + 4) == bit_value(bits, 8 * j + 4));
    assert(bit_value(longer, 8 * j + 5) == bit_value(bits, 8 * j + 5));
    assert(bit_value(longer, 8 * j + 6) == bit_value(bits, 8 * j + 6));
    assert(bit_value(longer, 8 * j + 7) == bit_value(bits, 8 * j + 7));
}

proof fn lemma_current_byte(bits: Seq<bool>, set: bool)
    ensures
        packed_byte(bits.push(set), (bits.len() / 8) as int) == packed_byte(bits, (bits.len() / 8) as int) + if set {
            if bits.len() % 8 == 0 {
                128int
            } else if bits.len() % 8 == 1 {
                64int
            } else if bits.len() % 8 == 2 {
                32int
            } else if bits.len() % 8 == 3 {
                16int
            } else if bits.len() % 8 == 4 {
                8int
            } else if bits.len() % 8 == 5 {
                4int
            } else if bits.len() % 8 == 6 {
                2int
            } else {
                1int
            }
        } else {
            0int
        },
        bits.len() % 8 == 0 ==> packed_byte(bits, (bits.len() / 8) as int) == 0,
{
    let longer = bits.push(set);
    let p = bits.len() as int;
    let j = p / 8;
    assert forall|q: int| 8 * j <= q < 8 * j + 8 && q != p implies bit_value(longer, q)
        == bit_value(bits, q) by {
        if 0 <= q < p {
            assert(longer[q] == bits[q]);
        }
    }
    assert(bit_value(bits, p) == 0);
    assert(longer[p] == set);
    assert forall|q: int| q >= p implies bit_value(bits, q) == 0 by {}
}

proof fn lemma_push_bit(bytes: Seq<u8>, bits: Seq<bool>, set: bool)
    requires
        holds_bits(bytes, bits),
        bits.len() < 8 * MAX_PACKED_BYTES,
    ensures
        holds_bits(with_bit(bytes, bits.len() as int, set), bits.push(set)),
{
    let p = bits.len() as int;
    let big_j = p / 8;
    let r = p % 8;
    let longer = bits.push(set);
    let after = with_bit(bytes, p, set);
    let x = bytes[big_j];
    lemma_current_byte(bits, set);
    if r == 0 {
        assert(x == 0);
        assert(x & (0xffu8 >> 0u8) == 0) by (bit_vector)
            requires
                x == 0,
        ;
    }
    assert(x & (0xffu8 >> (r as u8)) == 0);
    lemma_bit_mask(x, r as u8, (r + 1) as u8);
    assert(after[big_j] as int == packed_byte(longer, big_j));
    assert forall|j: int| 0 <= j < MAX_PACKED_BYTES implies after[j] as int == #[trigger] packed_byte(
        longer,
        j,
    ) by {
        if j != big_j {
            lemma_other_byte_unchanged(bits, set, j);
            assert(after[j] == bytes[j]);
        }
    }
    if (p + 1) % 8 != 0 {
        assert((p + 1) / 8 == big_j);
        assert((p + 1) % 8 == r + 1);
    }
}

/// Appends the low `count` bits of `value` to `packed` at bit `position`, most
/// significant first, and moves `position` past them.
fn push_bits(
    packed: &mut [u8; MAX_PACKED_BYTES],
    position: &mut usize,
    value: u16,
    count: usize,
    Ghost(bits): Ghost<Seq<bool>>,
)
    requires
        holds_bits(old(packed)@, bits),
        *old(position) == bits.len(),
        bits.len() + count <= 8 * MAX_PACKED_BYTES,
        count <= 16,
    ensures
        holds_bits(final(packed)@, bits + value_bits(value, count as nat)),
        *final(position) == bits.len() + count,
{
    let mut bit = count;
    let ghost mut so_far = bits;
    proof {
        assert(so_far =~= bits + value_bits(value, count as nat).take(0));
    }
    while bit > 0
        invariant
            bit <= count <= 16,
            holds_bits(packed@, so_far),
            so_far == bits + value_bits(value, count as nat).take((count - bit) as int),
            *position == so_far.len(),
            bits.len() + count <= 8 * MAX_PACKED_BYTES,
        decreases bit,
    {
        bit = bit - 1;
        let set = (value >> (bit as u16)) & 1 == 1;
        let ghost before = packed@;
        let p = *position;
        if set {
            packed[p / 8] = packed[p / 8] | (0x80u8 >> ((p % 8) as u8));
        }
        proof {
            lemma_push_bit(before, so_far, set);
            assert(packed@ == with_bit(before, p as int, set));
            so_far = so_far.push(set);
            assert(so_far =~= bits + value_bits(value, count as nat).take((count - bit) as int));
        }
        *position = p + 1;
    }
    proof {
        assert(value_bits(value, count as nat).take(count as int) =~= value_bits(
            value,
            count as nat,
        ));
    }
}

proof fn lemma_indices_bits_len(indices: Seq<u16>)
    ensures
        indices_bits(indices).len() == 11 * indices.len(),
    decreases indices.len(),
{
    if indices.len() > 0 {
        lemma_indices_bits_len(indices.drop_last());
    }
}

proof fn lemma_indices_bits_step(indices: Seq<u16>, k: int)
    requires
        0 <= k < indices.len(),
    ensures
        indices_bits(indices.take(k + 1)) == indices_bits(indices.take(k)) + value_bits(
            indices[k],
            11,
        ),
{
    assert(indices.take(k + 1).drop_last() =~= indices.take(k));
}

/// The final word's index is in the list, and its leading bits are the masked
/// entropy it was built from.
pub proof fn lemma_final_index(length: SeedLength, indices: Seq<u16>, extra: u8)
    ensures
        final_index(length, indices, extra) < COUNT,
        final_index(length, indices, extra) >> (length.checksum_bits() as u16) == masked_extra(
            length,
            extra,
        ),
        masked_extra(length, extra) < 1u16 << (length.final_word_entropy_bits() as u16),
        1u16 << (length.final_word_entropy_bits() as u16) >= 1,
{
    let d = sha256(entropy_of(length, indices, extra))[0];
    match length {
        SeedLength::Words12 => {
            assert(((((extra as u16) & 127u16) << 4u16) | ((d >> 4u8) as u16)) < 2048 && (((((
            extra as u16) & 127u16) << 4u16) | ((d >> 4u8) as u16)) >> 4u16) == (extra as u16)
                & 127u16 && (extra as u16) & 127u16 < 128u16) by (bit_vector);
            assert((1u16 << 7u16) == 128u16 && ((1u16 << 7u16) - 1) as u16 == 127u16)
                by (bit_vector);
            assert(128u16 >= 1);
        },
        SeedLength::Words24 => {
            assert(((((extra as u16) & 7u16) << 8u16) | ((d >> 0u8) as u16)) < 2048 && (((((
            extra as u16) & 7u16) << 8u16) | ((d >> 0u8) as u16)) >> 8u16) == (extra as u16)
                & 7u16 && (extra as u16) & 7u16 < 8u16) by (bit_vector);
            assert((1u16 << 3u16) == 8u16 && ((1u16 << 3u16) - 1) as u16 == 7u16)
                by (bit_vector);
        },
    }
}

/// The index of the final word for the entered `indices`: the low bits of
/// `extra_entropy` it carries, followed by the checksum over the entropy.
fn final_word_index(length: SeedLength, indices: &[u16], extra_entropy: u8) -> (index: u16)
    requires
        indices@.len() == length.entered_words(),
    ensures
        index == final_index(length, indices@, extra_entropy),
        index < COUNT,
{
    // 256 bits do not fit an integer, so the entropy is packed into bytes, most
    // significant bit first — the order BIP-39 hashes it in.
    let mut packed = [0u8; MAX_PACKED_BYTES];
    let mut position: usize = 0;
    proof {
        assert forall|j: int| 0 <= j < MAX_PACKED_BYTES implies packed@[j] as int
            == #[trigger] packed_byte(Seq::<bool>::empty(), j) by {}
        assert(indices@.take(0) =~= Seq::<u16>::empty());
    }
    let mut k: usize = 0;
    while k < indices.len()
        invariant
            indices@.len() == length.entered_words(),
            k <= indices@.len(),
            holds_bits(packed@, indices_bits(indices@.take(k as int))),
            position == 11 * k,
        decreases indices@.len() - k,
    {
        proof {
            lemma_indices_bits_len(indices@.take(k as int));
            lemma_indices_bits_step(indices@, k as int);
        }
        push_bits(
            &mut packed,
            &mut position,
            indices[k],
            BITS_PER_WORD,
            Ghost(indices_bits(indices@.take(k as int))),
        );
        k = k + 1;
    }
    proof {
        assert(indices@.take(k as int) =~= indices@);
        lemma_indices_bits_len(indices@);
        lemma_final_index(length, indices@, extra_entropy);
    }
    let extra_bits = length.final_word_entropy_bits();
    let extra = (extra_entropy as u16) & ((1u16 << (extra_bits as u16)) - 1);
    push_bits(&mut packed, &mut position, extra, extra_bits, Ghost(indices_bits(indices@)));

    // BIP-39 checksum: the leading bits of SHA-256 over the entropy.
    let data = vstd::slice::slice_subrange(packed.as_slice(), 0, length.entropy_bits() / 8);
    proof {
        assert(data@ =~= entropy_of(length, indices@, extra_entropy));
    }
    let digest = sha256_digest(data);
    index_from_digest(length, extra_entropy, &digest)
}

/// The final word's index, given the SHA-256 digest of the phrase's entropy:
/// the low [`SeedLength::final_word_entropy_bits`] of `extra_entropy`,
/// followed by the checksum — the digest's leading
/// [`SeedLength::checksum_bits`].
pub fn index_from_digest(length: SeedLength, extra_entropy: u8, digest: &[u8; 32]) -> (index: u16)
    ensures
        index == index_with_digest(length, extra_entropy, digest@[0]),
        index < COUNT,
{
    let extra_bits = length.final_word_entropy_bits();
    let checksum_bits = length.checksum_bits();
    proof {
        assert((1u16 << 7u16) == 128u16 && (1u16 << 3u16) == 8u16) by (bit_vector);
    }
    let extra = (extra_entropy as u16) & ((1u16 << (extra_bits as u16)) - 1);
    let checksum = (digest[0] >> ((8 - checksum_bits) as u8)) as u16;
    proof {
        let d = digest@[0];
        match length {
            SeedLength::Words12 => {
                assert(((((extra_entropy as u16) & 127u16) << 4u16) | ((d >> 4u8) as u16))
                    < 2048) by (bit_vector);
                assert(((1u16 << 7u16) - 1) as u16 == 127u16) by (bit_vector);
            },
            SeedLength::Words24 => {
                assert(((((extra_entropy as u16) & 7u16) << 8u16) | ((d >> 0u8) as u16)) < 2048)
                    by (bit_vector);
                assert(((1u16 << 3u16) - 1) as u16 == 7u16) by (bit_vector);
            },
        }
    }
    (extra << (checksum_bits as u16)) | checksum
}

/// Builds a mnemonic from the wordlist indices of every word but the last, plus
/// the entropy bits that last word carries.
///
/// The checksum is computed here and nowhere else, so every phrase the device
/// produces — generated or XORed — is checksummed by the same code.
fn assemble(length: SeedLength, indices: &[u16], extra_entropy: u8) -> (mnemonic: Option<
    Mnemonic,
>)
    ensures
        mnemonic is Some <==> indices@.len() == length.entered_words() && all_in_list(indices@),
        mnemonic matches Some(m) ==> m.phrase_length() == length && m@ == phrase_words(
            phrase_indices(length, indices@, extra_entropy),
        ) && m.slots() == phrase_slots(phrase_indices(length, indices@, extra_entropy)),
{
    if indices.len() != length.entered_words() {
        return None;
    }
    let mut words: [&'static str; MAX_WORD_COUNT_TOTAL] = [""; MAX_WORD_COUNT_TOTAL];
    let mut k: usize = 0;
    while k < indices.len()
        invariant
            indices@.len() == length.entered_words(),
            k <= indices@.len(),
            forall|m: int| 0 <= m < k ==> #[trigger] indices@[m] < COUNT,
            forall|m: int| 0 <= m < k ==> (#[trigger] words@[m])@ == wordlist()[indices@[m] as int],
            forall|m: int| 0 <= m < k ==> #[trigger] words@[m] == word_str(indices@[m] as int),
            forall|m: int| k <= m < MAX_WORD_COUNT_TOTAL ==> #[trigger] words@[m] == "",
        decreases indices@.len() - k,
    {
        match word_at(indices[k]) {
            Some(word) => {
                words[k] = word;
            },
            None => {
                assert(!all_in_list(indices@));
                return None;
            },
        }
        k = k + 1;
    }
    let final_value = final_word_index(length, indices, extra_entropy);
    match word_at(final_value) {
        Some(word) => {
            words[length.entered_words()] = word;
        },
        None => {
            return None;
        },
    }
    let ghost all = phrase_indices(length, indices@, extra_entropy);
    proof {
        assert forall|m: int| 0 <= m < length.total_words() implies in_list(
            #[trigger] words@[m]@,
        ) by {
            assert(words@[m]@ == wordlist()[all[m] as int]);
            assert(0 <= all[m] < COUNT);
        }
    }
    let mnemonic = Mnemonic { words, length };
    proof {
        assert(mnemonic@ =~= phrase_words(all));
        assert(mnemonic.slots() =~= phrase_slots(all));
    }
    Some(mnemonic)
}

/// Two entries of the list with the same bytes are the same entry.
proof fn lemma_word_bytes_injective(i: int, j: int)
    requires
        0 <= i < COUNT,
        0 <= j < COUNT,
        word_bytes(i) == word_bytes(j),
    ensures
        i == j,
{
    lemma_words_are_lowercase_letters();
    lemma_list_word_bytes(wordlist()[i]);
    lemma_list_word_bytes(wordlist()[j]);
    lemma_same_bytes_same_chars(wordlist()[i], wordlist()[j]);
    lemma_words_are_distinct();
}

/// A word spelled in full also starts with what spells it.
proof fn lemma_spells_prefixed(needle: Seq<u8>, i: int)
    requires
        spells(needle, i),
    ensures
        prefixed(needle, i),
{
    assert(word_bytes(i).take(needle.len() as int) =~= needle);
}

/// What resolves names a word of the list.
pub proof fn lemma_resolved_in_list(input: Seq<u8>)
    requires
        resolve_of(input) is Some,
    ensures
        0 <= resolve_of(input)->0 < COUNT,
{
}

/// Input that spells word `i` in full resolves to it.
proof fn lemma_resolves_whole_word(input: Seq<u8>, needle: Seq<u8>, i: int)
    requires
        needle_of(input) == Some(needle),
        needle.len() > 0,
        spells(needle, i),
    ensures
        resolve_of(input) == Some(i),
{
    let c = choose|c: int| #[trigger] spells(needle, c);
    assert(spells(needle, c));
    lemma_word_bytes_injective(c, i);
}

/// Input that spells no word and starts only word `i` resolves to it.
proof fn lemma_resolves_by_prefix(input: Seq<u8>, needle: Seq<u8>, i: int)
    requires
        needle_of(input) == Some(needle),
        needle.len() > 0,
        forall|j: int| !#[trigger] spells(needle, j),
        only_prefixed(needle, i),
    ensures
        resolve_of(input) == Some(i),
{
    let c = choose|c: int| #[trigger] only_prefixed(needle, c);
    assert(only_prefixed(needle, c));
    assert(prefixed(needle, i));
}

/// Input that spells no word and starts two resolves to nothing.
proof fn lemma_resolves_ambiguous(input: Seq<u8>, needle: Seq<u8>, j1: int, j2: int)
    requires
        needle_of(input) == Some(needle),
        forall|j: int| !#[trigger] spells(needle, j),
        0 <= j1 < j2 < COUNT,
        prefixed(needle, j1),
        prefixed(needle, j2),
    ensures
        resolve_of(input) is None,
{
    assert forall|i: int| !#[trigger] only_prefixed(needle, i) by {
        if only_prefixed(needle, i) {
            assert(prefixed(needle, j1));
            assert(prefixed(needle, j2));
        }
    }
}

/// Input that starts no word resolves to nothing.
proof fn lemma_resolves_nothing(input: Seq<u8>, needle: Seq<u8>)
    requires
        needle_of(input) == Some(needle),
        forall|j: int| 0 <= j < COUNT ==> !#[trigger] prefixed(needle, j),
    ensures
        resolve_of(input) is None,
{
    assert forall|i: int| !#[trigger] spells(needle, i) by {
        if spells(needle, i) {
            lemma_spells_prefixed(needle, i);
        }
    }
    assert forall|i: int| !#[trigger] only_prefixed(needle, i) by {}
}

/// Resolves what was typed to a wordlist entry.
///
/// Accepts a whole word, or any prefix only one word in the list starts with —
/// every 4-letter prefix is unique (proved in
/// [`crate::bip39_properties::lemma_four_letters_resolve`]), which is what lets
/// a word be accepted before it has been fully spelled out. Input is matched case-insensitively, since the
/// entry screen works in upper case and the wordlist is lower case.
///
/// Returns `None` for a prefix several words share (`"AB"`) or none (`"ABZ"`).
pub fn resolve(input: &str) -> (word: Option<&'static str>)
    ensures
        word is Some <==> resolve_of(input.spec_bytes()) is Some,
        word matches Some(w) ==> w@ == wordlist()[resolve_of(input.spec_bytes())->0],
{
    let ghost text = input.spec_bytes();
    let needle = match Needle::new(input) {
        Some(needle) => needle,
        None => {
            return None;
        },
    };

    // The empty prefix matches every word, which is ambiguous rather than
    // unresolvable, but there is nothing to accept either way.
    if needle.is_empty() {
        return None;
    }
    let needle = needle.as_bytes();
    let ghost n = needle@;

    let mut first: Option<&'static str> = None;
    let ghost mut first_index: int = 0;
    let mut ambiguous = false;
    let ghost mut other_index: int = 0;
    let mut index: usize = 0;
    while index < COUNT
        invariant
            text == input.spec_bytes(),
            n == needle@,
            needle_of(text) == Some(n),
            n.len() > 0,
            index <= COUNT,
            forall|j: int| 0 <= j < index ==> !#[trigger] spells(n, j),
            first is None ==> forall|j: int| 0 <= j < index ==> !#[trigger] prefixed(n, j),
            first is Some ==> 0 <= first_index < index && prefixed(n, first_index) && first->0@
                == wordlist()[first_index],
            !ambiguous ==> forall|j: int|
                0 <= j < index && #[trigger] prefixed(n, j) ==> first is Some && j
                    == first_index,
            ambiguous ==> 0 <= first_index < other_index < index && prefixed(n, first_index)
                && prefixed(n, other_index),
        decreases COUNT - index,
    {
        let (word, bytes) = entry_with_bytes(index);
        if starts_with(bytes, needle) {
            // A whole word is never ambiguous, even when longer words extend it:
            // 49 of the 2048 are prefixes of another ("add" also starts "addict"
            // and "address"), and treating those as ambiguous would make them
            // impossible to enter. Words are unique, so nothing later can beat it.
            if bytes.len() == needle.len() {
                proof {
                    assert(bytes@ =~= bytes@.take(n.len() as int));
                    lemma_resolves_whole_word(text, n, index as int);
                }
                return Some(word);
            }
            if first.is_some() {
                ambiguous = true;
                proof {
                    other_index = index as int;
                }
            } else {
                first = Some(word);
                proof {
                    first_index = index as int;
                }
            }
        } else {
            proof {
                if spells(n, index as int) {
                    lemma_spells_prefixed(n, index as int);
                }
            }
        }
        index = index + 1;
    }
    if ambiguous {
        proof {
            lemma_resolves_ambiguous(text, n, first_index, other_index);
        }
        None
    } else {
        proof {
            if first is Some {
                lemma_resolves_by_prefix(text, n, first_index);
            } else {
                lemma_resolves_nothing(text, n);
            }
        }
        first
    }
}

/// Completes a mnemonic of `length` from the entered words plus fresh entropy.
///
/// Only the low [`SeedLength::final_word_entropy_bits`] of `extra_entropy` are
/// used; the rest are ignored, so the caller can pass a whole byte without
/// masking it first.
///
/// Returns `None` unless exactly [`SeedLength::entered_words`] words were given
/// and each one resolves — which the entry screen guarantees, since it resolves
/// words before accepting them.
pub fn complete(length: SeedLength, entered: &[Word], extra_entropy: u8) -> (mnemonic: Option<
    Mnemonic,
>)
    ensures
        mnemonic is Some <==> complete_of(length, entered_bytes(entered@), extra_entropy) is Some,
        mnemonic matches Some(m) ==> m.phrase_length() == length && m@ == phrase_words(
            complete_of(length, entered_bytes(entered@), extra_entropy)->0,
        ) && m.slots() == phrase_slots(
            complete_of(length, entered_bytes(entered@), extra_entropy)->0,
        ),
{
    let ghost inputs = entered_bytes(entered@);
    if entered.len() != length.entered_words() {
        return None;
    }
    let mut indices = [0u16; MAX_WORD_COUNT];
    let mut k: usize = 0;
    while k < entered.len()
        invariant
            inputs == entered_bytes(entered@),
            entered@.len() == length.entered_words(),
            k <= entered@.len(),
            forall|m: int| 0 <= m < k ==> (#[trigger] resolve_of(inputs[m])) is Some,
            forall|m: int| 0 <= m < k ==> #[trigger] indices@[m] == resolved(inputs)[m],
            forall|m: int| 0 <= m < k ==> #[trigger] indices@[m] < COUNT,
        decreases entered@.len() - k,
    {
        let text = word_as_str(&entered[k]);
        let word = match resolve(text) {
            Some(word) => word,
            None => {
                assert(!all_resolve(inputs));
                return None;
            },
        };
        let ghost r = resolve_of(inputs[k as int])->0;
        proof {
            lemma_resolved_in_list(inputs[k as int]);
            lemma_list_index(r);
        }
        let index = match index_of(word) {
            Some(index) => index,
            None => {
                return None;
            },
        };
        indices[k] = index;
        k = k + 1;
    }
    let entered_indices = vstd::slice::slice_subrange(indices.as_slice(), 0, entered.len());
    proof {
        assert(entered_indices@ =~= resolved(inputs));
    }
    assemble(length, entered_indices, extra_entropy)
}


/// Reads a complete phrase of `length` and checks its checksum.
///
/// Returns `None` unless exactly [`SeedLength::total_words`] words were given,
/// every one resolves, and the final word is the one the words before it imply.
/// A phrase this accepts is one other wallets accept too, so it is what stands
/// between a mistyped word and a silently wrong answer.
pub fn parse(length: SeedLength, words: &[Word]) -> (mnemonic: Option<Mnemonic>)
    ensures
        mnemonic is Some <==> parse_of(length, entered_bytes(words@)) is Some,
        mnemonic matches Some(m) ==> m.phrase_length() == length && m@ == phrase_words(
            parse_of(length, entered_bytes(words@))->0,
        ) && m.slots() == phrase_slots(parse_of(length, entered_bytes(words@))->0),
{
    let ghost inputs = entered_bytes(words@);
    if words.len() != length.total_words() {
        return None;
    }
    let (entered, last) = words.split_at(length.entered_words());
    let ghost entered_inputs = entered_bytes(entered@);
    proof {
        assert(entered_inputs =~= inputs.take(length.entered_words() as int));
        assert(last@[0] == words@[length.entered_words() as int]);
    }
    let final_word = match resolve(word_as_str(&last[0])) {
        Some(word) => word,
        None => {
            assert(!all_resolve(inputs));
            return None;
        },
    };
    let ghost last_index = resolve_of(inputs[length.entered_words() as int])->0;
    proof {
        lemma_resolved_in_list(inputs[length.entered_words() as int]);
        lemma_list_index(last_index);
    }
    let last_index_value = match index_of(final_word) {
        Some(index) => index,
        None => {
            return None;
        },
    };

    // The final word is the entropy bits it carries followed by the checksum, so
    // dropping the checksum leaves the bits `complete` would have been handed.
    // Rebuilding from them and comparing checks the checksum without a second
    // implementation of it.
    let extra = last_index_value >> (length.checksum_bits() as u16);
    proof {
        assert(last_index_value < 2048u16 ==> (last_index_value >> 4u16) < 256u16 && (
        last_index_value >> 8u16) < 256u16) by (bit_vector);
    }
    let mnemonic = match complete(length, entered, extra as u8) {
        Some(mnemonic) => mnemonic,
        None => {
            proof {
                lemma_parse_split(length, inputs, entered_inputs);
            }
            return None;
        },
    };
    let ghost all = resolved(inputs);
    proof {
        lemma_parse_split(length, inputs, entered_inputs);
    }
    if same_word(mnemonic.final_word(), final_word) {
        proof {
            lemma_final_index(length, resolved(entered_inputs), extra as u8);
            assert(all_in_list(all));
            assert(phrase_indices(length, resolved(entered_inputs), extra as u8).drop_last()
                =~= resolved(entered_inputs));
            lemma_phrase_words_injective(all, phrase_indices(length, resolved(entered_inputs), extra as u8));
        }
        Some(mnemonic)
    } else {
        proof {
            if checks_out(length, all) {
                assert(phrase_indices(length, resolved(entered_inputs), extra as u8) =~= all);
            }
        }
        None
    }
}

/// XORs two phrases of the same length into a third.
///
/// Every word but the last is the XOR of the two inputs' words at that
/// position; the last is derived from `extra_entropy` and the checksum, exactly
/// as [`complete`] derives it.
///
/// **The result is not reversible.** The final word's entropy bits come from
/// `extra_entropy` rather than from the inputs, so those bits of `a` and `b` are
/// not in the output and `xor(result, b)` does not give back `a`. This combines
/// two phrases into a new one; it is not a way to split a seed into shares.
///
/// Returns `None` if the lengths differ.
pub fn xor(a: &Mnemonic, b: &Mnemonic, extra_entropy: u8) -> (mnemonic: Option<Mnemonic>)
    ensures
        mnemonic is Some <==> a.phrase_length() == b.phrase_length(),
        mnemonic matches Some(m) ==> m.phrase_length() == a.phrase_length() && m@ == phrase_words(
            xor_of(a.phrase_length(), a@, b@, extra_entropy),
        ) && m.slots() == phrase_slots(xor_of(a.phrase_length(), a@, b@, extra_entropy)),
{
    proof {
        use_type_invariant(a);
        use_type_invariant(b);
    }
    if a.length != b.length {
        return None;
    }
    let length = a.length;
    let entered = length.entered_words();
    let ghost ia = indices_of(a@).take(entered as int);
    let ghost ib = indices_of(b@).take(entered as int);

    // Each word is 11 aligned bits of the entropy, so XORing the indices is
    // XORing those bits — and the result is 11 bits too, always a word.
    let mut indices = [0u16; MAX_WORD_COUNT];
    let mut k: usize = 0;
    while k < entered
        invariant
            entered == length.entered_words(),
            length == a.length,
            length == b.length,
            ia == indices_of(a@).take(entered as int),
            ib == indices_of(b@).take(entered as int),
            a@.len() == length.total_words(),
            b@.len() == length.total_words(),
            forall|m: int| 0 <= m < a@.len() ==> in_list(#[trigger] a@[m]),
            forall|m: int| 0 <= m < b@.len() ==> in_list(#[trigger] b@[m]),
            forall|m: int| 0 <= m < a@.len() ==> (#[trigger] a.words@[m])@ == a@[m],
            forall|m: int| 0 <= m < b@.len() ==> (#[trigger] b.words@[m])@ == b@[m],
            k <= entered,
            forall|m: int| 0 <= m < k ==> #[trigger] indices@[m] == ia[m] ^ ib[m],
            forall|m: int| 0 <= m < k ==> #[trigger] indices@[m] < COUNT,
        decreases entered - k,
    {
        let word_a = a.words[k];
        let word_b = b.words[k];
        assert(word_a@ == a@[k as int]);
        assert(word_b@ == b@[k as int]);
        let index_a = match index_of(word_a) {
            Some(index) => index,
            None => {
                return None;
            },
        };
        let index_b = match index_of(word_b) {
            Some(index) => index,
            None => {
                return None;
            },
        };
        proof {
            assert(index_a < 2048u16 && index_b < 2048u16 ==> (index_a ^ index_b) < 2048u16)
                by (bit_vector);
        }
        indices[k] = index_a ^ index_b;
        k = k + 1;
    }
    let combined = vstd::slice::slice_subrange(indices.as_slice(), 0, entered);
    proof {
        assert(combined@ =~= xor_indices(ia, ib));
    }
    assemble(length, combined, extra_entropy)
}

/// The spelled words a phrase of `indices` shows are the words at those
/// positions, and no other run of positions shows the same words.
proof fn lemma_phrase_words_injective(a: Seq<u16>, b: Seq<u16>)
    requires
        all_in_list(a),
        all_in_list(b),
        a.len() == b.len(),
        a.len() > 0,
        phrase_words(a).last() == phrase_words(b).last(),
        a.drop_last() == b.drop_last(),
    ensures
        a == b,
{
    lemma_words_are_distinct();
    let n = a.len() - 1;
    assert(wordlist()[a[n] as int] == wordlist()[b[n] as int]);
    assert(a[n] == b[n]);
    assert(a =~= a.drop_last().push(a[n]));
    assert(b =~= b.drop_last().push(b[n]));
}

/// How [`parse`] splits a phrase: the entered words, whose indices `complete`
/// rebuilds the phrase from, and the last.
proof fn lemma_parse_split(length: SeedLength, inputs: Seq<Seq<u8>>, entered: Seq<Seq<u8>>)
    requires
        inputs.len() == length.total_words(),
        entered == inputs.take(length.entered_words() as int),
    ensures
        all_resolve(inputs) <==> all_resolve(entered) && resolve_of(
            inputs[length.entered_words() as int],
        ) is Some,
        all_resolve(inputs) ==> resolved(inputs).drop_last() == resolved(entered) && resolved(
            inputs,
        ).last() == resolve_of(inputs[length.entered_words() as int])->0,
{
    let n = length.entered_words() as int;
    if all_resolve(entered) && resolve_of(inputs[n]) is Some {
        assert forall|k: int| 0 <= k < inputs.len() implies (#[trigger] resolve_of(
            inputs[k],
        )) is Some by {
            if k < n {
                assert(resolve_of(entered[k]) is Some);
            }
        }
    }
    if all_resolve(inputs) {
        assert forall|k: int| 0 <= k < entered.len() implies (#[trigger] resolve_of(
            entered[k],
        )) is Some by {
            assert(resolve_of(inputs[k]) is Some);
        }
        assert(resolved(inputs).drop_last() =~= resolved(entered));
    }
}

} // verus!
