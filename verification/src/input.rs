//! The input decoder: a view of the call buffer that hands out the action and
//! the arguments, word by word.
//!
//! Word 0 holds the selector in its first four bytes; the other 28 are not
//! read. Word `i`, for `i` from 1, holds argument `i`. Every reading asks only
//! whether the buffer holds the word in full.

use vstd::prelude::*;
use vstd::slice::slice_subrange;
use crate::action::Action;
use crate::currency::EvmAddress;
use crate::error::DecodeError;
use crate::word::{be_value, has_word, lemma_be_value_prefix, word, WORD_BYTES};

verus! {

/// The selector that a word holds in its first four bytes.
pub open spec fn selector_of(w: Seq<u8>) -> u32 {
    be_value(w.subrange(0, 4)) as u32
}

/// The action that the buffer asks for.
pub open spec fn decode_action(content: Seq<u8>) -> Result<Action, DecodeError> {
    if !has_word(content, 0) {
        Err(DecodeError::TruncatedInput)
    } else {
        Action::spec_from_selector(selector_of(word(content, 0)))
    }
}

/// Whether a word holds an address: 20 bytes behind 12 bytes of zero.
pub open spec fn is_address_word(w: Seq<u8>) -> bool {
    forall|k: int| 0 <= k < 12 ==> w[k] == 0
}

/// The address in the last 20 bytes of a word.
pub open spec fn address_of(w: Seq<u8>) -> EvmAddress {
    EvmAddress(
        [
            w[12], w[13], w[14], w[15], w[16], w[17], w[18], w[19], w[20], w[21],
            w[22], w[23], w[24], w[25], w[26], w[27], w[28], w[29], w[30], w[31],
        ],
    )
}

/// The account that word `n` of the buffer names.
pub open spec fn decode_account(content: Seq<u8>, n: int) -> Result<EvmAddress, DecodeError> {
    if !has_word(content, n) {
        Err(DecodeError::TruncatedInput)
    } else if !is_address_word(word(content, n)) {
        Err(DecodeError::InvalidAccount)
    } else {
        Ok(address_of(word(content, n)))
    }
}

/// The amount that word `n` of the buffer holds.
pub open spec fn decode_amount(content: Seq<u8>, n: int) -> Result<u128, DecodeError> {
    if !has_word(content, n) {
        Err(DecodeError::TruncatedInput)
    } else if be_value(word(content, n)) > u128::MAX {
        Err(DecodeError::AmountOverflow)
    } else {
        Ok(be_value(word(content, n)) as u128)
    }
}

/// The action is read from the first four bytes alone: two buffers that
/// hold word 0 and agree on those bytes ask for the same action.
pub proof fn lemma_action_ignores_rest(first: Seq<u8>, second: Seq<u8>)
    requires
        has_word(first, 0),
        has_word(second, 0),
        first.subrange(0, 4) == second.subrange(0, 4),
    ensures
        decode_action(first) == decode_action(second),
{
    assert(word(first, 0).subrange(0, 4) =~= first.subrange(0, 4));
    assert(word(second, 0).subrange(0, 4) =~= second.subrange(0, 4));
}

/// A call buffer with the gas ceiling of the call.
#[derive(Clone, Copy, Debug)]
pub struct Input<'a> {
    pub content: &'a [u8],
    pub target_gas: Option<u64>,
}

impl<'a> Input<'a> {
    /// Wraps a call buffer. Nothing is read yet.
    pub fn new(content: &'a [u8], target_gas: Option<u64>) -> (input: Self)
        ensures
            input.content@ == content@,
            input.target_gas == target_gas,
    {
        Input { content, target_gas }
    }

    /// Word `n` of the buffer, or `TruncatedInput` where the buffer ends
    /// before the end of that word.
    pub fn nth_param(&self, n: usize) -> (param: Result<&'a [u8], DecodeError>)
        ensures
            match param {
                Ok(w) => has_word(self.content@, n as int) && w@ == word(self.content@, n as int),
                Err(e) => e == DecodeError::TruncatedInput && !has_word(self.content@, n as int),
            },
    {
        let len = self.content.len();
        if n >= len / WORD_BYTES {
            return Err(DecodeError::TruncatedInput);
        }
        let start = n * WORD_BYTES;
        Ok(slice_subrange(self.content, start, start + WORD_BYTES))
    }

    /// The action that the selector in word 0 stands for.
    pub fn action(&self) -> (action: Result<Action, DecodeError>)
        ensures
            action == decode_action(self.content@),
    {
        let w = match self.nth_param(0) {
            Ok(w) => w,
            Err(e) => { return Err(e); },
        };
        let b0 = w[0] as u32;
        let b1 = w[1] as u32;
        let b2 = w[2] as u32;
        let b3 = w[3] as u32;
        let selector = ((b0 * 256 + b1) * 256 + b2) * 256 + b3;
        proof {
            reveal_with_fuel(be_value, 5);
        }
        Action::from_selector(selector)
    }

    /// The account that word `index` names: the last 20 bytes of the word,
    /// where the 12 bytes before them are zero, else `InvalidAccount`.
    pub fn account_id_at(&self, index: usize) -> (account: Result<EvmAddress, DecodeError>)
        ensures
            account == decode_account(self.content@, index as int),
    {
        let w = match self.nth_param(index) {
            Ok(w) => w,
            Err(e) => { return Err(e); },
        };
        let mut k: usize = 0;
        while k < 12
            invariant
                k <= 12,
                has_word(self.content@, index as int),
                w@ == word(self.content@, index as int),
                forall|j: int| 0 <= j < k ==> w@[j] == 0,
            decreases 12 - k,
        {
            if w[k] != 0 {
                return Err(DecodeError::InvalidAccount);
            }
            k += 1;
        }
        let mut address = [0u8; 20];
        let mut i: usize = 0;
        while i < 20
            invariant
                i <= 20,
                w@.len() == 32,
                forall|j: int| 0 <= j < i ==> address@[j] == w@[12 + j],
            decreases 20 - i,
        {
            address[i] = w[12 + i];
            i += 1;
        }
        let account = EvmAddress(address);
        proof {
            assert(account.0 =~= address_of(w@).0);
        }
        Ok(account)
    }

    /// The amount that word `index` holds, read as a big-endian number, or
    /// `AmountOverflow` where that number is above the largest balance.
    pub fn balance_at(&self, index: usize) -> (amount: Result<u128, DecodeError>)
        ensures
            amount == decode_amount(self.content@, index as int),
    {
        let w = match self.nth_param(index) {
            Ok(w) => w,
            Err(e) => { return Err(e); },
        };
        let mut value: u128 = 0;
        let mut i: usize = 0;
        while i < 32
            invariant
                i <= 32,
                has_word(self.content@, index as int),
                w@ == word(self.content@, index as int),
                value == be_value(w@.subrange(0, i as int)),
            decreases 32 - i,
        {
            proof {
                let next = w@.subrange(0, i + 1);
                assert(next.drop_last() =~= w@.subrange(0, i as int));
                lemma_be_value_prefix(w@, i + 1);
            }
            let shifted = match value.checked_mul(256) {
                Some(shifted) => shifted,
                None => { return Err(DecodeError::AmountOverflow); },
            };
            value = match shifted.checked_add(w[i] as u128) {
                Some(sum) => sum,
                None => { return Err(DecodeError::AmountOverflow); },
            };
            i += 1;
        }
        proof {
            assert(w@.subrange(0, 32) =~= w@);
        }
        Ok(value)
    }
}

} // verus!
