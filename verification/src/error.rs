//! Why a call buffer could not be decoded.

use vstd::prelude::*;

verus! {

/// A failure to read a call buffer. It is found before anything is asked of
/// the ledger.
#[derive(Clone, Copy, Debug, PartialEq, Eq, Structural)]
pub enum DecodeError {
    /// The selector stands for no action.
    InvalidSelector,
    /// The buffer ends before the word that was asked for.
    TruncatedInput,
    /// The word does not hold an address.
    InvalidAccount,
    /// The word holds a number above the largest balance.
    AmountOverflow,
}

} // verus!
