//! The word format: 32-byte words that hold numbers big-endian.

use vstd::prelude::*;

verus! {

/// The number of bytes in a word.
pub const WORD_BYTES: usize = 32;

/// The number that a byte sequence holds, most significant byte first.
pub open spec fn be_value(bytes: Seq<u8>) -> nat
    decreases bytes.len(),
{
    if bytes.len() == 0 {
        0
    } else {
        be_value(bytes.drop_last()) * 256 + bytes.last() as nat
    }
}

/// The `len` lowest base-256 digits of `value`, most significant first.
pub open spec fn be_bytes(value: nat, len: nat) -> Seq<u8>
    decreases len,
{
    if len == 0 {
        Seq::empty()
    } else {
        be_bytes(value / 256, (len - 1) as nat).push((value % 256) as u8)
    }
}

/// Whether `value` can be written in `len` bytes.
pub open spec fn fits_in(value: nat, len: nat) -> bool
    decreases len,
{
    if len == 0 {
        value == 0
    } else {
        fits_in(value / 256, (len - 1) as nat)
    }
}

/// Whether the buffer holds word `n` in full.
pub open spec fn has_word(content: Seq<u8>, n: int) -> bool {
    0 <= n && (n + 1) * WORD_BYTES <= content.len()
}

/// Word `n` of the buffer.
pub open spec fn word(content: Seq<u8>, n: int) -> Seq<u8> {
    content.subrange(n * WORD_BYTES, n * WORD_BYTES + WORD_BYTES)
}

/// `be_bytes(value, len)` has `len` bytes.
pub proof fn lemma_be_bytes_len(value: nat, len: nat)
    ensures
        be_bytes(value, len).len() == len,
    decreases len,
{
    if len > 0 {
        lemma_be_bytes_len(value / 256, (len - 1) as nat);
    }
}

/// A number that fits in `len` bytes is read back from its `len` bytes.
pub proof fn lemma_be_value_of_be_bytes(value: nat, len: nat)
    requires
        fits_in(value, len),
    ensures
        be_value(be_bytes(value, len)) == value,
    decreases len,
{
    if len > 0 {
        let rest = be_bytes(value / 256, (len - 1) as nat);
        lemma_be_value_of_be_bytes(value / 256, (len - 1) as nat);
        assert(be_bytes(value, len).drop_last() =~= rest);
    }
}

/// The number held by a prefix is at most the number held by the whole.
pub proof fn lemma_be_value_prefix(bytes: Seq<u8>, n: int)
    requires
        0 <= n <= bytes.len(),
    ensures
        be_value(bytes.subrange(0, n)) <= be_value(bytes),
    decreases bytes.len() - n,
{
    if n == bytes.len() {
        assert(bytes.subrange(0, n) =~= bytes);
    } else {
        lemma_be_value_prefix(bytes.drop_last(), n);
        assert(bytes.drop_last().subrange(0, n) =~= bytes.subrange(0, n));
    }
}

/// Every 128-bit number fits in a word.
pub proof fn lemma_u128_fits(value: u128)
    ensures
        fits_in(value as nat, 32),
{
    lemma_fits_in_more(value as nat, 16, 32);
    assert(fits_in(value as nat, 16)) by {
        reveal_with_fuel(fits_in, 17);
    }
}

/// A number that fits in `len` bytes fits in more.
pub proof fn lemma_fits_in_more(value: nat, len: nat, more: nat)
    requires
        len <= more,
    ensures
        fits_in(value, len) ==> fits_in(value, more),
    decreases more,
{
    if len < more && fits_in(value, len) {
        if len == 0 {
            lemma_fits_in_more(0, 0, (more - 1) as nat);
        } else {
            lemma_fits_in_more(value / 256, (len - 1) as nat, (more - 1) as nat);
        }
    }
}

/// The word of a number below 256 is that number behind 31 zeros.
pub proof fn lemma_small_word(b: u8)
    ensures
        be_bytes(b as nat, 32).len() == 32,
        be_bytes(b as nat, 32)[31] == b,
        forall|i: int| 0 <= i < 31 ==> be_bytes(b as nat, 32)[i] == 0,
{
    lemma_be_bytes_len(b as nat, 32);
    lemma_be_bytes_len(0, 31);
    lemma_zero_bytes(31);
}

/// The bytes of zero are zeros.
pub proof fn lemma_zero_bytes(len: nat)
    ensures
        forall|i: int| 0 <= i < len ==> be_bytes(0, len)[i] == 0,
    decreases len,
{
    lemma_be_bytes_len(0, len);
    if len > 0 {
        lemma_zero_bytes((len - 1) as nat);
        lemma_be_bytes_len(0, (len - 1) as nat);
    }
}

} // verus!
