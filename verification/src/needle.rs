use vstd::prelude::*;
use vstd::string::StringSliceAdditionalSpecFns;

use crate::bip39_wordlist::MAX_WORD_LEN;

verus! {

/// An ASCII letter, either case.
pub open spec fn is_ascii_letter(b: u8) -> bool {
    (65 <= b <= 90) || (97 <= b <= 122)
}

/// The lowercase form of an ASCII byte; anything but `A`-`Z` is unchanged.
pub open spec fn ascii_lower(b: u8) -> u8 {
    if 65 <= b <= 90 {
        (b + 32) as u8
    } else {
        b
    }
}

/// What [`Needle::new`] makes of `input`: its letters lowercased, or nothing
/// when it is longer than any word or holds something other than a letter.
pub open spec fn needle_of(input: Seq<u8>) -> Option<Seq<u8>> {
    if input.len() <= MAX_WORD_LEN && forall|k: int|
        0 <= k < input.len() ==> is_ascii_letter(#[trigger] input[k]) {
        Some(Seq::new(input.len(), |k: int| ascii_lower(input[k])))
    } else {
        None
    }
}

/// Input normalised for matching against the list: lowercase, since the entry
/// screen works in upper case and the wordlist is lower case.
///
/// Held by value in a fixed buffer rather than borrowed, so that lowercasing
/// happens once per lookup instead of once per word compared.
pub struct Needle {
    bytes: [u8; MAX_WORD_LEN],
    len: usize,
}

impl View for Needle {
    type V = Seq<u8>;

    closed spec fn view(&self) -> Seq<u8> {
        self.bytes@.take(self.len as int)
    }
}

impl Needle {
    #[verifier::type_invariant]
    spec fn fits(self) -> bool {
        self.len <= MAX_WORD_LEN
    }

    /// `None` for input that cannot match any word however it continues: longer
    /// than the longest word, or holding something other than a letter.
    ///
    /// Empty input is a valid needle — every word starts with it.
    pub fn new(input: &str) -> (needle: Option<Self>)
        ensures
            needle is Some <==> needle_of(input.spec_bytes()) is Some,
            needle matches Some(n) ==> n@ == needle_of(input.spec_bytes())->0,
    {
        let text = input.as_bytes();
        if text.len() > MAX_WORD_LEN {
            return None;
        }
        let mut bytes = [0u8;MAX_WORD_LEN];
        let mut k: usize = 0;
        while k < text.len()
            invariant
                text@ == input.spec_bytes(),
                text@.len() <= MAX_WORD_LEN,
                k <= text@.len(),
                forall|m: int| 0 <= m < k ==> is_ascii_letter(#[trigger] text@[m]),
                forall|m: int| 0 <= m < k ==> bytes@[m] == ascii_lower(#[trigger] text@[m]),
            decreases text@.len() - k,
        {
            let byte = text[k];
            if !((65 <= byte && byte <= 90) || (97 <= byte && byte <= 122)) {
                assert(!is_ascii_letter(text@[k as int]));
                assert(needle_of(input.spec_bytes()) is None);
                return None;
            }
            bytes[k] = if byte <= 90 {
                byte + 32
            } else {
                byte
            };
            k = k + 1;
        }
        let needle = Self { bytes, len: text.len() };
        assert(needle@ =~= needle_of(text@)->0);
        Some(needle)
    }

    pub fn as_bytes(&self) -> (bytes: &[u8])
        ensures
            bytes@ == self@,
    {
        proof {
            use_type_invariant(self);
        }
        vstd::slice::slice_subrange(self.bytes.as_slice(), 0, self.len)
    }

    pub fn len(&self) -> (len: usize)
        ensures
            len == self@.len(),
            len <= MAX_WORD_LEN,
    {
        proof {
            use_type_invariant(self);
        }
        self.len
    }

    pub fn is_empty(&self) -> (empty: bool)
        ensures
            empty == (self@.len() == 0),
    {
        proof {
            use_type_invariant(self);
        }
        self.len == 0
    }
}

} // verus!
