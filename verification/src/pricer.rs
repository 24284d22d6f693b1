//! The gas pricer: what an action on an asset costs.
//!
//! The cost is fixed by the action, the kind of the asset and the constants
//! of the chain. It is known before anything is asked of the ledger and never
//! depends on what the ledger holds.

use vstd::prelude::*;
use crate::action::Action;
use crate::currency::{CurrencyId, DexShare};
use crate::error::DecodeError;
use crate::input::{decode_action, Input};
use crate::runtime::Runtime;
use crate::weights::saturating_add;

verus! {

/// The pricer of a chain.
#[derive(Clone, Copy, Debug)]
pub struct Pricer {
    pub runtime: Runtime,
}

impl Pricer {
    /// The cost that every action bears.
    pub const BASE_COST: u64 = 200;

    /// The gas of one storage read.
    pub open spec fn spec_storage_read_cost(self) -> u64 {
        self.runtime.weight_to_gas.spec_convert(self.runtime.db_weight.spec_reads(1))
    }

    /// The read cost of one side of a liquidity share.
    pub open spec fn spec_dex_share_read_cost(self, share: DexShare) -> u64 {
        match share {
            DexShare::Erc20(_) | DexShare::ForeignAsset(_) => self.spec_storage_read_cost(),
            _ => Self::BASE_COST,
        }
    }

    /// The read cost of an asset.
    pub open spec fn spec_read_cost(self, currency_id: CurrencyId) -> u64 {
        match currency_id {
            CurrencyId::Erc20(_)
            | CurrencyId::StableAssetPoolToken(_)
            | CurrencyId::ForeignAsset(_) => self.spec_storage_read_cost(),
            CurrencyId::DexShare(symbol_0, symbol_1) => saturating_add(
                self.spec_dex_share_read_cost(symbol_0),
                self.spec_dex_share_read_cost(symbol_1),
            ),
            _ => Self::BASE_COST,
        }
    }

    /// The weight of a transfer of an asset.
    pub open spec fn spec_transfer_weight(self, currency_id: CurrencyId) -> u64 {
        if currency_id == self.runtime.native_currency_id {
            self.runtime.transfer_native_currency
        } else {
            self.runtime.transfer_non_native_currency
        }
    }

    /// The cost of an action on an asset.
    pub open spec fn spec_action_cost(self, action: Action, currency_id: CurrencyId) -> u64 {
        match action {
            Action::Transfer => saturating_add(
                Self::BASE_COST,
                self.runtime.weight_to_gas.spec_convert(self.spec_transfer_weight(currency_id)),
            ),
            _ => saturating_add(Self::BASE_COST, self.spec_read_cost(currency_id)),
        }
    }

    /// The cost of the call in a buffer on an asset.
    pub open spec fn spec_cost(self, content: Seq<u8>, currency_id: CurrencyId) -> Result<
        u64,
        DecodeError,
    > {
        match decode_action(content) {
            Ok(action) => Ok(self.spec_action_cost(action, currency_id)),
            Err(e) => Err(e),
        }
    }

    /// The gas of one storage read.
    fn storage_read_cost(&self) -> (cost: u64)
        ensures
            cost == self.spec_storage_read_cost(),
    {
        self.runtime.weight_to_gas.convert(self.runtime.db_weight.reads(1))
    }

    /// The cost of the call that `input` holds, on the asset `currency_id`:
    /// the cost of its action, or the reason why no action can be read.
    pub fn cost(&self, input: &Input, currency_id: CurrencyId) -> (cost: Result<u64, DecodeError>)
        ensures
            cost == self.spec_cost(input.content@, currency_id),
    {
        match input.action() {
            Ok(action) => Ok(self.action_cost(action, currency_id)),
            Err(e) => Err(e),
        }
    }

    /// The cost of `action` on the asset `currency_id`: the base cost and,
    /// for a transfer, the gas of the transfer's weight, for any other action
    /// the read cost of the asset. The sum saturates.
    pub fn action_cost(&self, action: Action, currency_id: CurrencyId) -> (cost: u64)
        ensures
            cost == self.spec_action_cost(action, currency_id),
            cost >= Self::BASE_COST,
    {
        let cost = match action {
            Action::QueryName | Action::QuerySymbol | Action::QueryDecimals => self.read_cost(
                currency_id,
            ),
            Action::QueryTotalIssuance => self.read_cost(currency_id),
            Action::QueryBalance => self.read_cost(currency_id),
            Action::Transfer => {
                let weight = if currency_id == self.runtime.native_currency_id {
                    self.runtime.transfer_native_currency
                } else {
                    self.runtime.transfer_non_native_currency
                };
                self.runtime.weight_to_gas.convert(weight)
            },
        };
        Self::BASE_COST.saturating_add(cost)
    }

    /// The read cost of one side of a liquidity share: one storage read for
    /// a contract token or a foreign asset, the base cost for any other.
    pub fn dex_share_read_cost(&self, share: DexShare) -> (cost: u64)
        ensures
            cost == self.spec_dex_share_read_cost(share),
    {
        match share {
            DexShare::Erc20(_) | DexShare::ForeignAsset(_) => self.storage_read_cost(),
            _ => Self::BASE_COST,
        }
    }

    /// The read cost of an asset: one storage read for a contract token, the
    /// token of a stable-asset pool or a foreign asset; for a liquidity share
    /// the saturating sum of the read costs of its two sides; the base cost
    /// for any other.
    pub fn read_cost(&self, currency_id: CurrencyId) -> (cost: u64)
        ensures
            cost == self.spec_read_cost(currency_id),
    {
        match currency_id {
            CurrencyId::Erc20(_)
            | CurrencyId::StableAssetPoolToken(_)
            | CurrencyId::ForeignAsset(_) => self.storage_read_cost(),
            CurrencyId::DexShare(symbol_0, symbol_1) => self.dex_share_read_cost(
                symbol_0,
            ).saturating_add(self.dex_share_read_cost(symbol_1)),
            _ => Self::BASE_COST,
        }
    }
}

/// The cost of a call is fixed by its action and its asset: two buffers that
/// ask for the same action cost the same on the same asset, and a buffer
/// that names an action costs what that action costs.
pub proof fn lemma_cost_deterministic(
    pricer: Pricer,
    first: Seq<u8>,
    second: Seq<u8>,
    currency_id: CurrencyId,
)
    requires
        decode_action(first) == decode_action(second),
    ensures
        pricer.spec_cost(first, currency_id) == pricer.spec_cost(second, currency_id),
        decode_action(first) matches Ok(action) ==> pricer.spec_cost(first, currency_id) == Ok::<
            u64,
            DecodeError,
        >(pricer.spec_action_cost(action, currency_id)),
{
}

/// The read cost of a liquidity share is the saturating sum of what its two
/// sides cost as assets of their own, whichever side stands first; every
/// action but a transfer costs the base cost more.
pub proof fn lemma_composite_read_cost(pricer: Pricer, symbol_0: DexShare, symbol_1: DexShare)
    ensures
        pricer.spec_read_cost(CurrencyId::DexShare(symbol_0, symbol_1)) == saturating_add(
            pricer.spec_read_cost(symbol_0.as_currency()),
            pricer.spec_read_cost(symbol_1.as_currency()),
        ),
        pricer.spec_read_cost(CurrencyId::DexShare(symbol_0, symbol_1)) == pricer.spec_read_cost(
            CurrencyId::DexShare(symbol_1, symbol_0),
        ),
        forall|action: Action|
            action != Action::Transfer ==> #[trigger] pricer.spec_action_cost(
                action,
                CurrencyId::DexShare(symbol_0, symbol_1),
            ) == saturating_add(
                Pricer::BASE_COST,
                saturating_add(
                    pricer.spec_read_cost(symbol_0.as_currency()),
                    pricer.spec_read_cost(symbol_1.as_currency()),
                ),
            ),
{
}

/// A share of a foreign asset and a plain token costs one storage read and
/// the base cost to read.
pub proof fn lemma_foreign_and_plain_read_cost(pricer: Pricer, index: u16, symbol: u8)
    ensures
        pricer.spec_read_cost(
            CurrencyId::DexShare(DexShare::ForeignAsset(index), DexShare::Token(symbol)),
        ) == saturating_add(pricer.spec_storage_read_cost(), Pricer::BASE_COST),
{
}

/// No cost wraps: a cost is never below the base cost, nor below what is
/// added to the base cost.
pub proof fn lemma_cost_never_wraps(pricer: Pricer, action: Action, currency_id: CurrencyId)
    ensures
        pricer.spec_action_cost(action, currency_id) >= Pricer::BASE_COST,
        action != Action::Transfer ==> pricer.spec_action_cost(action, currency_id)
            >= pricer.spec_read_cost(currency_id),
        action == Action::Transfer ==> pricer.spec_action_cost(action, currency_id)
            >= pricer.runtime.weight_to_gas.spec_convert(pricer.spec_transfer_weight(currency_id)),
{
}

} // verus!
