//! Asset identifiers.
//!
//! An asset is a plain token, a token that an outside registry keeps (a
//! contract, a stable-asset pool, a foreign asset), a crowdloan share, or a
//! liquidity share made of two other assets.

use vstd::prelude::*;
use vstd::std_specs::cmp::PartialEqSpecImpl;

verus! {

/// A 20-byte contract or account address of the virtual machine.
#[derive(Clone, Copy, Debug, Eq)]
pub struct EvmAddress(pub [u8; 20]);

impl PartialEq for EvmAddress {
    fn eq(&self, other: &Self) -> (r: bool) {
        let mut i: usize = 0;
        while i < 20
            invariant
                i <= 20,
                forall|k: int| 0 <= k < i ==> self.0@[k] == other.0@[k],
            decreases 20 - i,
        {
            if self.0[i] != other.0[i] {
                return false;
            }
            i += 1;
        }
        assert(self.0 =~= other.0);
        true
    }
}

impl PartialEqSpecImpl for EvmAddress {
    open spec fn obeys_eq_spec() -> bool {
        true
    }

    open spec fn eq_spec(&self, other: &Self) -> bool {
        *self == *other
    }
}

/// One side of a liquidity share.
#[derive(Clone, Copy, Debug, Eq)]
pub enum DexShare {
    /// A plain token, by the code of its symbol.
    Token(u8),
    /// A token kept by a contract.
    Erc20(EvmAddress),
    /// A crowdloan share, by its lease.
    LiquidCrowdloan(u32),
    /// A foreign asset, by its index in the registry.
    ForeignAsset(u16),
}

impl DexShare {
    /// This side of a share as an asset of its own.
    pub open spec fn as_currency(self) -> CurrencyId {
        match self {
            DexShare::Token(symbol) => CurrencyId::Token(symbol),
            DexShare::Erc20(address) => CurrencyId::Erc20(address),
            DexShare::LiquidCrowdloan(lease) => CurrencyId::LiquidCrowdloan(lease),
            DexShare::ForeignAsset(index) => CurrencyId::ForeignAsset(index),
        }
    }
}

impl PartialEq for DexShare {
    fn eq(&self, other: &Self) -> (r: bool) {
        match (self, other) {
            (DexShare::Token(a), DexShare::Token(b)) => *a == *b,
            (DexShare::Erc20(a), DexShare::Erc20(b)) => *a == *b,
            (DexShare::LiquidCrowdloan(a), DexShare::LiquidCrowdloan(b)) => *a == *b,
            (DexShare::ForeignAsset(a), DexShare::ForeignAsset(b)) => *a == *b,
            _ => false,
        }
    }
}

impl PartialEqSpecImpl for DexShare {
    open spec fn obeys_eq_spec() -> bool {
        true
    }

    open spec fn eq_spec(&self, other: &Self) -> bool {
        *self == *other
    }
}

/// The identifier of a fungible asset of the ledger.
#[derive(Clone, Copy, Debug, Eq)]
pub enum CurrencyId {
    /// A plain token, by the code of its symbol.
    Token(u8),
    /// A liquidity share of a pair of assets.
    DexShare(DexShare, DexShare),
    /// A token kept by a contract.
    Erc20(EvmAddress),
    /// The token of a stable-asset pool, by the pool's index.
    StableAssetPoolToken(u32),
    /// A crowdloan share, by its lease.
    LiquidCrowdloan(u32),
    /// A foreign asset, by its index in the registry.
    ForeignAsset(u16),
}

impl PartialEq for CurrencyId {
    fn eq(&self, other: &Self) -> (r: bool) {
        match (self, other) {
            (CurrencyId::Token(a), CurrencyId::Token(b)) => *a == *b,
            (CurrencyId::DexShare(a0, a1), CurrencyId::DexShare(b0, b1)) => *a0 == *b0 && *a1
                == *b1,
            (CurrencyId::Erc20(a), CurrencyId::Erc20(b)) => *a == *b,
            (CurrencyId::StableAssetPoolToken(a), CurrencyId::StableAssetPoolToken(b)) => *a == *b,
            (CurrencyId::LiquidCrowdloan(a), CurrencyId::LiquidCrowdloan(b)) => *a == *b,
            (CurrencyId::ForeignAsset(a), CurrencyId::ForeignAsset(b)) => *a == *b,
            _ => false,
        }
    }
}

impl PartialEqSpecImpl for CurrencyId {
    open spec fn obeys_eq_spec() -> bool {
        true
    }

    open spec fn eq_spec(&self, other: &Self) -> bool {
        *self == *other
    }
}

} // verus!
