//! What the chain supplies to the bridge.

use vstd::prelude::*;
use crate::currency::CurrencyId;
use crate::weights::{DbWeight, Weight, WeightToGas};

verus! {

/// The constants of the chain that the bridge runs on.
#[derive(Clone, Copy, Debug)]
pub struct Runtime {
    /// The asset whose balances the native-currency accessor keeps.
    pub native_currency_id: CurrencyId,
    /// The weight of one storage read and of one storage write.
    pub db_weight: DbWeight,
    /// The benchmarked weight of a transfer of the native asset.
    pub transfer_native_currency: Weight,
    /// The benchmarked weight of a transfer of any other asset.
    pub transfer_non_native_currency: Weight,
    /// The conversion of weight into gas.
    pub weight_to_gas: WeightToGas,
}

} // verus!
