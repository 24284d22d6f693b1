//! The output encoder: numbers and byte strings in the word format.
//!
//! A number fills one word, big-endian, zero-extended. A byte string is its
//! length in one word, then its bytes, then zeros up to the end of the last
//! word.

use vstd::prelude::*;
use crate::input::decode_amount;
use crate::error::DecodeError;
use crate::word::{
    be_bytes, be_value, has_word, lemma_be_bytes_len, lemma_be_value_of_be_bytes, lemma_small_word,
    lemma_u128_fits, word,
};

verus! {

/// The number of zero bytes behind a byte string of length `len`.
pub open spec fn padding(len: nat) -> nat {
    ((32 - len % 32) % 32) as nat
}

/// The encoding of a byte string.
pub open spec fn encoded_bytes(raw: Seq<u8>) -> Seq<u8> {
    be_bytes(raw.len(), 32) + raw + Seq::new(padding(raw.len()), |i: int| 0u8)
}

/// The word that holds `value`.
fn encode_word(value: u128) -> (out: Vec<u8>)
    ensures
        out@ == be_bytes(value as nat, 32),
{
    let mut out: Vec<u8> = Vec::new();
    let mut n: usize = 0;
    while n < 32
        invariant
            n <= 32,
            out@.len() == n,
        decreases 32 - n,
    {
        out.push(0);
        n += 1;
    }
    let mut rest: u128 = value;
    let mut k: usize = 0;
    while k < 32
        invariant
            k <= 32,
            out@.len() == 32,
            be_bytes(value as nat, 32) == be_bytes(rest as nat, (32 - k) as nat) + out@.subrange(
                32 - k,
                32,
            ),
        decreases 32 - k,
    {
        let ghost before = out@;
        let digit = (rest % 256) as u8;
        out.set(31 - k, digit);
        proof {
            let higher = be_bytes((rest / 256) as nat, (31 - k) as nat);
            lemma_be_bytes_len((rest / 256) as nat, (31 - k) as nat);
            assert(be_bytes(rest as nat, (32 - k) as nat) == higher.push(digit));
            assert(higher.push(digit) + before.subrange(32 - k, 32) =~= higher + out@.subrange(
                31 - k,
                32,
            ));
        }
        rest = rest / 256;
        k += 1;
    }
    out
}

/// The encoder of results.
#[derive(Clone, Copy, Debug)]
pub struct Output;

impl Default for Output {
    fn default() -> (output: Output)
        ensures
            output == Output,
    {
        Output
    }
}

impl Output {
    /// One word with `b` in its last byte.
    pub fn encode_u8(&self, b: u8) -> (out: Vec<u8>)
        ensures
            out@ == be_bytes(b as nat, 32),
            out@.len() == 32,
            out@[31] == b,
            forall|i: int| 0 <= i < 31 ==> out@[i] == 0,
    {
        let out = encode_word(b as u128);
        proof {
            lemma_small_word(b);
        }
        out
    }

    /// One word with `value` big-endian in its last 16 bytes.
    pub fn encode_u128(&self, value: u128) -> (out: Vec<u8>)
        ensures
            out@ == be_bytes(value as nat, 32),
            out@.len() == 32,
            be_value(out@) == value,
    {
        let out = encode_word(value);
        proof {
            lemma_be_bytes_len(value as nat, 32);
            lemma_u128_fits(value);
            lemma_be_value_of_be_bytes(value as nat, 32);
        }
        out
    }

    /// The length of `raw` in one word, then `raw`, then zeros up to a whole
    /// number of words.
    pub fn encode_bytes(&self, raw: &[u8]) -> (out: Vec<u8>)
        ensures
            out@ == encoded_bytes(raw@),
            out@.len() == 32 + raw@.len() + padding(raw@.len()),
            out@.len() % 32 == 0,
    {
        let len = raw.len();
        let mut out = encode_word(len as u128);
        proof {
            lemma_be_bytes_len(len as nat, 32);
        }
        let ghost head = out@;
        let mut i: usize = 0;
        while i < len
            invariant
                i <= len,
                len == raw@.len(),
                head.len() == 32,
                out@ == head + raw@.subrange(0, i as int),
            decreases len - i,
        {
            out.push(raw[i]);
            i += 1;
        }
        let pad = (32 - len % 32) % 32;
        let mut j: usize = 0;
        while j < pad
            invariant
                j <= pad,
                out@ == head + raw@ + Seq::new(j as nat, |i: int| 0u8),
            decreases pad - j,
        {
            out.push(0);
            j += 1;
        }
        out
    }
}

/// An amount that was written into word `n` of a buffer is read back from it.
pub proof fn lemma_amount_round_trip(content: Seq<u8>, n: int, value: u128)
    requires
        has_word(content, n),
        word(content, n) == be_bytes(value as nat, 32),
    ensures
        decode_amount(content, n) == Ok::<u128, DecodeError>(value),
{
    lemma_u128_fits(value);
    lemma_be_value_of_be_bytes(value as nat, 32);
}

} // verus!
