//! The selector table: the actions a call can ask for, and the 4-byte
//! selector of each.
//!
//! A selector is the first four bytes, read as a big-endian number, of the
//! Keccak-256 digest of the action's signature.

use vstd::prelude::*;
use vstd::std_specs::convert::FromSpecImpl;
use vstd::std_specs::convert::TryFromSpecImpl;
use crate::error::DecodeError;

verus! {

/// What a call asks of the ledger.
#[derive(Clone, Copy, Debug, PartialEq, Eq, Structural)]
pub enum Action {
    QueryName,
    QuerySymbol,
    QueryDecimals,
    QueryTotalIssuance,
    QueryBalance,
    Transfer,
}

/// The selector of `name()`.
pub const NAME: u32 = 0x06fdde03;

/// The selector of `symbol()`.
pub const SYMBOL: u32 = 0x95d89b41;

/// The selector of `decimals()`.
pub const DECIMALS: u32 = 0x313ce567;

/// The selector of `totalSupply()`.
pub const TOTAL_SUPPLY: u32 = 0x18160ddd;

/// The selector of `balanceOf(address)`.
pub const BALANCE_OF: u32 = 0x70a08231;

/// The selector of `transfer(address,address,uint256)`.
pub const TRANSFER: u32 = 0xbeabacc8;

impl Action {
    /// The selector of an action.
    pub open spec fn spec_selector(self) -> u32 {
        match self {
            Action::QueryName => NAME,
            Action::QuerySymbol => SYMBOL,
            Action::QueryDecimals => DECIMALS,
            Action::QueryTotalIssuance => TOTAL_SUPPLY,
            Action::QueryBalance => BALANCE_OF,
            Action::Transfer => TRANSFER,
        }
    }

    /// The action that a selector stands for, if it stands for one.
    pub open spec fn spec_from_selector(selector: u32) -> Result<Action, DecodeError> {
        if selector == NAME {
            Ok(Action::QueryName)
        } else if selector == SYMBOL {
            Ok(Action::QuerySymbol)
        } else if selector == DECIMALS {
            Ok(Action::QueryDecimals)
        } else if selector == TOTAL_SUPPLY {
            Ok(Action::QueryTotalIssuance)
        } else if selector == BALANCE_OF {
            Ok(Action::QueryBalance)
        } else if selector == TRANSFER {
            Ok(Action::Transfer)
        } else {
            Err(DecodeError::InvalidSelector)
        }
    }

    /// The signature that the selector of an action is derived from.
    pub open spec fn spec_signature(self) -> Seq<char> {
        match self {
            Action::QueryName => "name()"@,
            Action::QuerySymbol => "symbol()"@,
            Action::QueryDecimals => "decimals()"@,
            Action::QueryTotalIssuance => "totalSupply()"@,
            Action::QueryBalance => "balanceOf(address)"@,
            Action::Transfer => "transfer(address,address,uint256)"@,
        }
    }

    /// The selector of this action.
    pub fn selector(self) -> (selector: u32)
        ensures
            selector == self.spec_selector(),
            Action::spec_from_selector(selector) == Ok::<Action, DecodeError>(self),
    {
        match self {
            Action::QueryName => NAME,
            Action::QuerySymbol => SYMBOL,
            Action::QueryDecimals => DECIMALS,
            Action::QueryTotalIssuance => TOTAL_SUPPLY,
            Action::QueryBalance => BALANCE_OF,
            Action::Transfer => TRANSFER,
        }
    }

    /// The action that `selector` stands for. A selector outside the table is
    /// refused with `InvalidSelector`.
    pub fn from_selector(selector: u32) -> (found: Result<Action, DecodeError>)
        ensures
            found == Action::spec_from_selector(selector),
            match found {
                Ok(action) => action.spec_selector() == selector,
                Err(e) => e == DecodeError::InvalidSelector && forall|action: Action|
                    action.spec_selector() != selector,
            },
    {
        if selector == NAME {
            Ok(Action::QueryName)
        } else if selector == SYMBOL {
            Ok(Action::QuerySymbol)
        } else if selector == DECIMALS {
            Ok(Action::QueryDecimals)
        } else if selector == TOTAL_SUPPLY {
            Ok(Action::QueryTotalIssuance)
        } else if selector == BALANCE_OF {
            Ok(Action::QueryBalance)
        } else if selector == TRANSFER {
            Ok(Action::Transfer)
        } else {
            Err(DecodeError::InvalidSelector)
        }
    }

    /// The signature that the selector of this action is derived from.
    pub fn signature(self) -> (text: &'static str)
        ensures
            text@ == self.spec_signature(),
    {
        match self {
            Action::QueryName => "name()",
            Action::QuerySymbol => "symbol()",
            Action::QueryDecimals => "decimals()",
            Action::QueryTotalIssuance => "totalSupply()",
            Action::QueryBalance => "balanceOf(address)",
            Action::Transfer => "transfer(address,address,uint256)",
        }
    }
}

impl From<Action> for u32 {
    fn from(action: Action) -> (selector: u32) {
        action.selector()
    }
}

impl FromSpecImpl<Action> for u32 {
    open spec fn obeys_from_spec() -> bool {
        true
    }

    open spec fn from_spec(action: Action) -> u32 {
        action.spec_selector()
    }
}

impl TryFrom<u32> for Action {
    type Error = DecodeError;

    fn try_from(selector: u32) -> (found: Result<Action, DecodeError>) {
        Action::from_selector(selector)
    }
}

impl TryFromSpecImpl<u32> for Action {
    open spec fn obeys_try_from_spec() -> bool {
        true
    }

    open spec fn try_from_spec(selector: u32) -> Result<Action, DecodeError> {
        Action::spec_from_selector(selector)
    }
}

/// Selectors and actions map onto each other one to one: every action is
/// found again from its selector, and a selector that stands for an action
/// is the selector of that action.
pub proof fn lemma_selector_inverse(action: Action, selector: u32)
    ensures
        Action::spec_from_selector(action.spec_selector()) == Ok::<Action, DecodeError>(action),
        Action::spec_from_selector(selector) matches Ok(found) ==> found.spec_selector()
            == selector,
{
}

/// A 4-byte value that is the selector of no action is refused, and only
/// such a value is.
pub proof fn lemma_unknown_selector_rejected(selector: u32)
    ensures
        Action::spec_from_selector(selector) is Err <==> forall|action: Action|
            action.spec_selector() != selector,
        Action::spec_from_selector(selector) is Err ==> Action::spec_from_selector(selector)
            == Err::<Action, DecodeError>(DecodeError::InvalidSelector),
{
    match Action::spec_from_selector(selector) {
        Ok(found) => {
            assert(found.spec_selector() == selector);
        },
        Err(_) => {},
    }
}

/// No two actions share a selector.
pub proof fn lemma_selectors_distinct(a: Action, b: Action)
    ensures
        a.spec_selector() == b.spec_selector() ==> a == b,
{
}

} // verus!
