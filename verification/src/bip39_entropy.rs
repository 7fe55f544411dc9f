//! What the checksum is taken over, stated as arithmetic rather than as bit
//! packing: the entropy of a phrase is one number — the entered words'
//! indices as base-2048 digits, first word first, followed by the final word's
//! entropy bits — and the bytes SHA-256 hashes are that number written out
//! big-endian. The checksum, and with it the final word, is the leading bits
//! of the digest of those bytes and of no others.

use vstd::arithmetic::power2::{lemma2_to64, lemma_pow2_unfold, pow2};
use vstd::prelude::*;

use crate::bip39::{
    all_in_list, all_resolve, complete_of, lemma_resolved_in_list, resolve_of, resolved, entropy_of, final_index, indices_bits, lemma_final_index, masked_extra,
    packed, packed_byte, bit_value, sha256, value_bits, SeedLength,
};

verus! {

/// `bytes` read as one big-endian number.
pub open spec fn bytes_value(bytes: Seq<u8>) -> int
    decreases bytes.len(),
{
    if bytes.len() == 0 {
        0
    } else {
        bytes_value(bytes.drop_last()) * 256 + bytes.last()
    }
}

/// Word indices read as one number, each a base-2048 digit, first word most
/// significant.
pub open spec fn indices_value(indices: Seq<u16>) -> int
    decreases indices.len(),
{
    if indices.len() == 0 {
        0
    } else {
        indices_value(indices.drop_last()) * 2048 + indices.last()
    }
}

/// The number a phrase of `length` encodes: the entered words' indices
/// followed by the low entropy bits of `extra`.
pub open spec fn entropy_number(length: SeedLength, indices: Seq<u16>, extra: u8) -> int {
    indices_value(indices) * pow2(length.final_word_entropy_bits() as nat) + extra_bits(
        length,
        extra,
    )
}

/// The low [`SeedLength::final_word_entropy_bits`] of `extra`, as a number.
pub open spec fn extra_bits(length: SeedLength, extra: u8) -> int {
    extra as int % pow2(length.final_word_entropy_bits() as nat) as int
}

/// Masking keeps exactly the low bits the final word carries.
proof fn lemma_masked_extra_is_the_low_bits(length: SeedLength, extra: u8)
    ensures
        masked_extra(length, extra) == extra_bits(length, extra),
        extra_bits(length, extra) < pow2(length.final_word_entropy_bits() as nat),
{
    lemma2_to64();
    match length {
        SeedLength::Words12 => {
            assert(((extra as u16) & (((1u16 << 7u16) - 1) as u16)) == (extra as u16) % 128u16)
                by (bit_vector);
        },
        SeedLength::Words24 => {
            assert(((extra as u16) & (((1u16 << 3u16) - 1) as u16)) == (extra as u16) % 8u16)
                by (bit_vector);
        },
    }
}

/// `bits` read as one binary number, first bit most significant.
spec fn bits_value(bits: Seq<bool>) -> int
    decreases bits.len(),
{
    if bits.len() == 0 {
        0
    } else {
        bits_value(bits.drop_last()) * 2 + if bits.last() {
            1int
        } else {
            0int
        }
    }
}

proof fn lemma_bits_value_concat(a: Seq<bool>, b: Seq<bool>)
    ensures
        bits_value(a + b) == bits_value(a) * pow2(b.len()) + bits_value(b),
    decreases b.len(),
{
    if b.len() == 0 {
        assert(a + b =~= a);
        lemma2_to64();
    } else {
        lemma_bits_value_concat(a, b.drop_last());
        assert((a + b).drop_last() =~= a + b.drop_last());
        assert((a + b).last() == b.last());
        lemma_pow2_unfold(b.len());
        let x = bits_value(a);
        let p = pow2((b.len() - 1) as nat) as int;
        let y = bits_value(b.drop_last());
        let bit: int = if b.last() {
            1
        } else {
            0
        };
        assert(bits_value(a + b) == bits_value((a + b).drop_last()) * 2 + bit);
        assert(bits_value(b) == y * 2 + bit);
        assert(bits_value((a + b).drop_last()) == x * p + y);
        assert(pow2(b.len()) == 2 * p);
        assert((x * p + y) * 2 == x * (2 * p) + y * 2) by (nonlinear_arith);
    }
}

proof fn lemma_value_bits_value(v: u16, c: nat)
    requires
        c <= 11,
        v < pow2(c),
    ensures
        bits_value(value_bits(v, c)) == v,
    decreases c,
{
    lemma2_to64();
    if c == 0 {
        assert(value_bits(v, c) =~= Seq::<bool>::empty());
    } else {
        let h: u16 = v >> 1u16;
        assert((v >> 1u16) == v / 2 && v % 2 == (v & 1u16) && (v >> 0u16) == v && ((v & 1u16)
            == 0u16 || (v & 1u16) == 1u16)) by (bit_vector);
        lemma_pow2_unfold(c);
        lemma_value_bits_value(h, (c - 1) as nat);
        let bits = value_bits(v, c);
        assert forall|k: int| 0 <= k < c - 1 implies #[trigger] bits[k] == value_bits(
            h,
            (c - 1) as nat,
        )[k] by {
            let s: u16 = (c - 2 - k) as u16;
            assert(s < 15);
            assert(((v >> ((s + 1) as u16)) & 1u16) == ((v >> 1u16) >> s) & 1u16) by (bit_vector)
                requires
                    s < 15,
            ;
            assert(((c - 1 - k) as u16) == ((s + 1) as u16));
        }
        assert(bits.drop_last() =~= value_bits(h, (c - 1) as nat));
        assert(bits.last() == ((v & 1u16) == 1u16));
    }
}

proof fn lemma_indices_bits_value(indices: Seq<u16>)
    requires
        all_in_list(indices),
    ensures
        bits_value(indices_bits(indices)) == indices_value(indices),
        indices_bits(indices).len() == 11 * indices.len(),
    decreases indices.len(),
{
    if indices.len() > 0 {
        let rest = indices.drop_last();
        assert(all_in_list(rest)) by {
            assert forall|k: int| 0 <= k < rest.len() implies #[trigger] rest[k] < 2048 by {
                assert(rest[k] == indices[k]);
            }
        }
        lemma_indices_bits_value(rest);
        lemma2_to64();
        assert(indices[indices.len() - 1] < 2048);
        lemma_value_bits_value(indices.last(), 11);
        lemma_bits_value_concat(indices_bits(rest), value_bits(indices.last(), 11));
    }
}

/// A byte packed from eight bits, most significant first, is their value.
proof fn lemma_byte_value(bits: Seq<bool>, j: int)
    requires
        0 <= j,
        8 * j + 8 <= bits.len(),
    ensures
        packed_byte(bits, j) == bits_value(bits.subrange(8 * j, 8 * j + 8)),
        0 <= packed_byte(bits, j) < 256,
{
    let s = bits.subrange(8 * j, 8 * j + 8);
    reveal_with_fuel(bits_value, 9);
    assert(s.drop_last() =~= s.subrange(0, 7));
    assert(s.subrange(0, 7).drop_last() =~= s.subrange(0, 6));
    assert(s.subrange(0, 6).drop_last() =~= s.subrange(0, 5));
    assert(s.subrange(0, 5).drop_last() =~= s.subrange(0, 4));
    assert(s.subrange(0, 4).drop_last() =~= s.subrange(0, 3));
    assert(s.subrange(0, 3).drop_last() =~= s.subrange(0, 2));
    assert(s.subrange(0, 2).drop_last() =~= s.subrange(0, 1));
    assert(s.subrange(0, 1).drop_last() =~= Seq::<bool>::empty());
    assert forall|i: int| 0 <= i < 8 implies bit_value(bits, 8 * j + i) == if s[i] {
        1int
    } else {
        0int
    } by {
        assert(s[i] == bits[8 * j + i]);
    }
}

/// Bits packed eight to a byte, most significant first, read as a big-endian
/// number, are the bits read as a binary number.
proof fn lemma_packed_value(bits: Seq<bool>, n: nat)
    requires
        bits.len() == 8 * n,
    ensures
        bytes_value(packed(bits, n)) == bits_value(bits),
    decreases n,
{
    if n > 0 {
        let cut = 8 * (n - 1);
        let front = bits.take(cut);
        let back = bits.subrange(cut, 8 * n as int);
        lemma_packed_value(front, (n - 1) as nat);
        assert forall|q: int| 0 <= q < cut implies #[trigger] bit_value(bits, q) == bit_value(
            front,
            q,
        ) by {
            assert(front[q] == bits[q]);
        }
        assert forall|j: int| 0 <= j < n - 1 implies #[trigger] packed_byte(bits, j)
            == packed_byte(front, j) by {
            assert(bit_value(bits, 8 * j) == bit_value(front, 8 * j));
            assert(bit_value(bits, 8 * j + 1) == bit_value(front, 8 * j + 1));
            assert(bit_value(bits, 8 * j + 2) == bit_value(front, 8 * j + 2));
            assert(bit_value(bits, 8 * j + 3) == bit_value(front, 8 * j + 3));
            assert(bit_value(bits, 8 * j + 4) == bit_value(front, 8 * j + 4));
            assert(bit_value(bits, 8 * j + 5) == bit_value(front, 8 * j + 5));
            assert(bit_value(bits, 8 * j + 6) == bit_value(front, 8 * j + 6));
            assert(bit_value(bits, 8 * j + 7) == bit_value(front, 8 * j + 7));
        }
        assert(packed(bits, n).drop_last() =~= packed(front, (n - 1) as nat));
        lemma_byte_value(bits, n - 1);
        assert(bits =~= front + back);
        lemma_bits_value_concat(front, back);
        lemma2_to64();
    }
}

/// Two byte strings of one length with the same big-endian value are the same.
proof fn lemma_bytes_value_injective(a: Seq<u8>, b: Seq<u8>)
    requires
        a.len() == b.len(),
        bytes_value(a) == bytes_value(b),
    ensures
        a == b,
    decreases a.len(),
{
    if a.len() > 0 {
        let x = bytes_value(a.drop_last());
        let y = bytes_value(b.drop_last());
        let r = a.last() as int;
        let s = b.last() as int;
        assert(x == y && r == s) by (nonlinear_arith)
            requires
                x * 256 + r == y * 256 + s,
                0 <= r < 256,
                0 <= s < 256,
        ;
        lemma_bytes_value_injective(a.drop_last(), b.drop_last());
        assert(a =~= a.drop_last().push(a.last()));
        assert(b =~= b.drop_last().push(b.last()));
    } else {
        assert(a =~= b);
    }
}

/// The bytes a phrase's checksum is taken over are its entropy number written
/// out big-endian, in exactly the entropy's length: eleven bits per entered
/// word, first word first, then the final word's entropy bits.
pub proof fn lemma_entropy_is_the_phrase_number(length: SeedLength, indices: Seq<u16>, extra: u8)
    requires
        indices.len() == length.entered_words(),
        all_in_list(indices),
    ensures
        entropy_of(length, indices, extra).len() == length.entropy_bits() / 8,
        bytes_value(entropy_of(length, indices, extra)) == entropy_number(length, indices, extra),
{
    let eb = length.final_word_entropy_bits() as nat;
    let m = masked_extra(length, extra);
    lemma_masked_extra_is_the_low_bits(length, extra);
    lemma2_to64();
    assert(m < pow2(eb));
    lemma_indices_bits_value(indices);
    lemma_value_bits_value(m, eb);
    let bits = indices_bits(indices) + value_bits(m, eb);
    lemma_bits_value_concat(indices_bits(indices), value_bits(m, eb));
    let n = (length.entropy_bits() / 8) as nat;
    assert(bits.len() == 8 * n);
    lemma_packed_value(bits, n);
}

/// The final word of a phrase is its entropy bits followed by the checksum,
/// and the checksum is the leading bits of SHA-256 over the entropy number
/// written out big-endian: for whatever bytes of the entropy's length hold that
/// number, the final word's index is the masked extra bits shifted up past the
/// checksum, plus the top [`SeedLength::checksum_bits`] of the first digest byte
/// of those bytes.
pub proof fn lemma_checksum_covers_the_entropy(
    length: SeedLength,
    indices: Seq<u16>,
    extra: u8,
    data: Seq<u8>,
)
    requires
        indices.len() == length.entered_words(),
        all_in_list(indices),
        data.len() == length.entropy_bits() / 8,
        bytes_value(data) == entropy_number(length, indices, extra),
    ensures
        entropy_of(length, indices, extra) == data,
        final_index(length, indices, extra) == extra_bits(length, extra) * pow2(
            length.checksum_bits() as nat,
        ) + (sha256(data)[0] as int) / (pow2((8 - length.checksum_bits()) as nat) as int),
{
    lemma_entropy_is_the_phrase_number(length, indices, extra);
    lemma_bytes_value_injective(entropy_of(length, indices, extra), data);
    lemma_masked_extra_is_the_low_bits(length, extra);
    lemma2_to64();
    lemma_final_index(length, indices, extra);
    let d = sha256(data)[0];
    let m = masked_extra(length, extra);
    match length {
        SeedLength::Words12 => {
            assert(m < 128u16 ==> ((m << 4u16) | ((d >> 4u8) as u16)) == m * 16 + d / 16
                && (1u16 << 7u16) == 128u16) by (bit_vector);
        },
        SeedLength::Words24 => {
            assert(m < 8u16 ==> ((m << 8u16) | ((d >> 0u8) as u16)) == m * 256 + d / 1
                && (1u16 << 3u16) == 8u16) by (bit_vector);
        },
    }
}

/// Completing entered words resolves each to its index and appends the word
/// the checksum names: for whatever bytes of the entropy's length hold the
/// entropy number of those indices and `extra`, the phrase is the resolved
/// indices followed by the low bits of `extra` shifted up past the checksum,
/// plus the top [`SeedLength::checksum_bits`] of the first digest byte of
/// those bytes.
pub proof fn lemma_completion_ends_in_the_checksum_word(
    length: SeedLength,
    inputs: Seq<Seq<u8>>,
    extra: u8,
    data: Seq<u8>,
)
    requires
        inputs.len() == length.entered_words(),
        all_resolve(inputs),
        data.len() == length.entropy_bits() / 8,
        bytes_value(data) == entropy_number(length, resolved(inputs), extra),
    ensures
        complete_of(length, inputs, extra) is Some,
        complete_of(length, inputs, extra)->0.len() == length.total_words(),
        complete_of(length, inputs, extra)->0.take(length.entered_words() as int) == resolved(
            inputs,
        ),
        complete_of(length, inputs, extra)->0.last() == extra_bits(length, extra) * pow2(
            length.checksum_bits() as nat,
        ) + (sha256(data)[0] as int) / (pow2((8 - length.checksum_bits()) as nat) as int),
{
    let indices = resolved(inputs);
    assert(all_in_list(indices)) by {
        assert forall|k: int| 0 <= k < indices.len() implies #[trigger] indices[k] < 2048 by {
            assert(resolve_of(inputs[k]) is Some);
            lemma_resolved_in_list(inputs[k]);
        }
    }
    lemma_checksum_covers_the_entropy(length, indices, extra, data);
    let phrase = complete_of(length, inputs, extra)->0;
    assert(phrase.take(length.entered_words() as int) =~= indices);
}

} // verus!
