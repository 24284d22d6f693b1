//! Execution weights: the cost of storage access and the benchmarked weights
//! of the transaction-payment calls.

use vstd::prelude::*;

verus! {

/// An amount of execution weight (reference time).
pub type Weight = u64;

/// `a + b`, held at `u64::MAX` where the sum would pass it.
pub open spec fn saturating_add(a: u64, b: u64) -> u64 {
    if a + b > u64::MAX {
        u64::MAX
    } else {
        (a + b) as u64
    }
}

/// `a * b`, held at `u64::MAX` where the product would pass it.
pub open spec fn saturating_mul(a: u64, b: u64) -> u64 {
    if a * b > u64::MAX {
        u64::MAX
    } else {
        (a * b) as u64
    }
}

/// The weight of one storage read and of one storage write.
#[derive(Clone, Copy, Debug, PartialEq, Eq, Structural)]
pub struct DbWeight {
    pub read: Weight,
    pub write: Weight,
}

impl DbWeight {
    /// The weight of `r` reads.
    pub open spec fn spec_reads(self, r: u64) -> Weight {
        saturating_mul(self.read, r)
    }

    /// The weight of `w` writes.
    pub open spec fn spec_writes(self, w: u64) -> Weight {
        saturating_mul(self.write, w)
    }

    /// The weight of `r` reads, as `frame_support::weights::RuntimeDbWeight::reads`
    /// computes it for this read and write weight; of its result the reference
    /// time is taken. That method multiplies the read weight by `r`, saturating.
    #[verifier::external_body]
    pub(crate) fn reads(self, r: u64) -> (weight: Weight)
        ensures
            weight == self.spec_reads(r),
    {
        frame_support::weights::RuntimeDbWeight { read: self.read, write: self.write }
            .reads(r)
            .ref_time()
    }

    /// The weight of `w` writes, as `frame_support::weights::RuntimeDbWeight::writes`
    /// computes it for this read and write weight; of its result the reference
    /// time is taken. That method multiplies the write weight by `w`, saturating.
    #[verifier::external_body]
    pub(crate) fn writes(self, w: u64) -> (weight: Weight)
        ensures
            weight == self.spec_writes(w),
    {
        frame_support::weights::RuntimeDbWeight { read: self.read, write: self.write }
            .writes(w)
            .ref_time()
    }
}

/// The conversion of weight into gas: `ratio` units of weight for one unit of
/// gas, rounded down. The ratio is never zero.
#[derive(Clone, Copy, Debug)]
pub struct WeightToGas {
    ratio: u64,
}

impl WeightToGas {
    #[verifier::type_invariant]
    spec fn nonzero(self) -> bool {
        self.ratio > 0
    }

    /// The units of weight that one unit of gas stands for.
    pub closed spec fn spec_ratio(self) -> u64 {
        self.ratio
    }

    /// The gas that `weight` converts to.
    pub open spec fn spec_convert(self, weight: Weight) -> u64 {
        weight / self.spec_ratio()
    }

    /// A conversion at `ratio` units of weight for one unit of gas, or
    /// nothing where `ratio` is zero.
    pub fn new(ratio: u64) -> (made: Option<Self>)
        ensures
            match made {
                Some(conversion) => ratio > 0 && conversion.spec_ratio() == ratio,
                None => ratio == 0,
            },
    {
        if ratio == 0 {
            None
        } else {
            Some(WeightToGas { ratio })
        }
    }

    /// The units of weight that one unit of gas stands for.
    pub fn ratio(&self) -> (ratio: u64)
        ensures
            ratio == self.spec_ratio(),
            ratio > 0,
    {
        proof {
            use_type_invariant(self);
        }
        self.ratio
    }

    /// The gas that `weight` converts to.
    pub fn convert(&self, weight: Weight) -> (gas: u64)
        ensures
            gas == self.spec_convert(weight),
    {
        proof {
            use_type_invariant(self);
        }
        weight / self.ratio
    }
}

/// A benchmarked base weight with the storage accesses of the call added,
/// every step saturating.
pub open spec fn call_weight(db: DbWeight, base: Weight, reads: u64, writes: u64) -> Weight {
    saturating_add(saturating_add(base, db.spec_reads(reads)), db.spec_writes(writes))
}

/// Weight functions of the transaction-payment calls.
#[derive(Clone, Copy, Debug)]
pub struct WeightInfo {
    pub db_weight: DbWeight,
}

impl WeightInfo {
    /// The weight of setting an account's alternative fee swap path.
    pub fn set_alternative_fee_swap_path(&self) -> (weight: Weight)
        ensures
            weight == call_weight(self.db_weight, 34_312_000, 1, 2),
    {
        let base: Weight = 34_312_000;
        base.saturating_add(self.db_weight.reads(1)).saturating_add(self.db_weight.writes(2))
    }

    /// The weight of setting a global fee swap path.
    pub fn set_global_fee_swap_path(&self) -> (weight: Weight)
        ensures
            weight == call_weight(self.db_weight, 19_420_000, 1, 1),
    {
        let base: Weight = 19_420_000;
        base.saturating_add(self.db_weight.reads(1)).saturating_add(self.db_weight.writes(1))
    }

    /// The weight of removing a global fee swap path.
    pub fn remove_global_fee_swap_path(&self) -> (weight: Weight)
        ensures
            weight == call_weight(self.db_weight, 19_280_000, 1, 1),
    {
        let base: Weight = 19_280_000;
        base.saturating_add(self.db_weight.reads(1)).saturating_add(self.db_weight.writes(1))
    }

    /// The weight of enabling the fee pool of a token.
    pub fn enable_charge_fee_pool(&self) -> (weight: Weight)
        ensures
            weight == call_weight(self.db_weight, 98_681_000, 8, 7),
    {
        let base: Weight = 98_681_000;
        base.saturating_add(self.db_weight.reads(8)).saturating_add(self.db_weight.writes(7))
    }

    /// The weight of disabling the fee pool of a token.
    pub fn disable_charge_fee_pool(&self) -> (weight: Weight)
        ensures
            weight == call_weight(self.db_weight, 105_817_000, 7, 9),
    {
        let base: Weight = 105_817_000;
        base.saturating_add(self.db_weight.reads(7)).saturating_add(self.db_weight.writes(9))
    }

    /// The weight of the work at the end of a block.
    pub fn on_finalize(&self) -> (weight: Weight)
        ensures
            weight == call_weight(self.db_weight, 10_840_000, 2, 1),
    {
        let base: Weight = 10_840_000;
        base.saturating_add(self.db_weight.reads(2)).saturating_add(self.db_weight.writes(1))
    }

    /// The weight of a call that pays its fee along a swap path.
    pub fn with_fee_path(&self) -> (weight: Weight)
        ensures
            weight == 156_000_000,
    {
        156_000_000
    }

    /// The weight of a call that pays its fee in a named currency.
    pub fn with_fee_currency(&self) -> (weight: Weight)
        ensures
            weight == saturating_add(193_000_000, self.db_weight.spec_reads(1)),
    {
        let base: Weight = 193_000_000;
        base.saturating_add(self.db_weight.reads(1))
    }
}

} // verus!
