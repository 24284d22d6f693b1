use multicurrency_precompile::{DbWeight, WeightInfo, WeightToGas};

const ROCKS_DB: DbWeight = DbWeight { read: 25_000_000, write: 100_000_000 };

#[test]
fn storage_accesses_are_weighed_by_their_number() {
    let info = WeightInfo { db_weight: DbWeight { read: 2, write: 5 } };
    assert_eq!(info.with_fee_currency(), 193_000_000 + 2);
    assert_eq!(info.set_alternative_fee_swap_path(), 34_312_000 + 2 + 2 * 5);
    assert_eq!(info.enable_charge_fee_pool(), 98_681_000 + 8 * 2 + 7 * 5);
    assert_eq!(info.disable_charge_fee_pool(), 105_817_000 + 7 * 2 + 9 * 5);
    let reads_only = WeightInfo { db_weight: DbWeight { read: 1_000, write: 0 } };
    assert_eq!(reads_only.enable_charge_fee_pool(), 98_681_000 + 8_000);
    let writes_only = WeightInfo { db_weight: DbWeight { read: 0, write: 1_000 } };
    assert_eq!(writes_only.enable_charge_fee_pool(), 98_681_000 + 7_000);
}

#[test]
fn storage_accesses_saturate() {
    let heavy = WeightInfo { db_weight: DbWeight { read: u64::MAX / 2 + 1, write: 0 } };
    assert_eq!(heavy.with_fee_currency(), u64::MAX / 2 + 1 + 193_000_000);
    assert_eq!(heavy.on_finalize(), u64::MAX);
    assert_eq!(heavy.enable_charge_fee_pool(), u64::MAX);
    let heavy = WeightInfo { db_weight: DbWeight { read: 0, write: u64::MAX / 2 + 1 } };
    assert_eq!(heavy.on_finalize(), u64::MAX / 2 + 1 + 10_840_000);
    assert_eq!(heavy.set_alternative_fee_swap_path(), u64::MAX);
}

#[test]
fn weight_to_gas_divides_by_its_ratio() {
    let conversion = WeightToGas::new(9).expect("a ratio above zero");
    assert_eq!(conversion.ratio(), 9);
    assert_eq!(conversion.convert(0), 0);
    assert_eq!(conversion.convert(8), 0);
    assert_eq!(conversion.convert(9), 1);
    assert_eq!(conversion.convert(9_000), 1_000);
    assert_eq!(conversion.convert(u64::MAX), u64::MAX / 9);
    let unit = WeightToGas::new(1).expect("a ratio above zero");
    assert_eq!(unit.convert(u64::MAX), u64::MAX);
}

#[test]
fn weight_to_gas_refuses_a_zero_ratio() {
    assert!(WeightToGas::new(0).is_none());
}

#[test]
fn transaction_payment_weights() {
    let info = WeightInfo { db_weight: ROCKS_DB };
    assert_eq!(info.set_alternative_fee_swap_path(), 34_312_000 + 25_000_000 + 200_000_000);
    assert_eq!(info.set_global_fee_swap_path(), 19_420_000 + 25_000_000 + 100_000_000);
    assert_eq!(info.remove_global_fee_swap_path(), 19_280_000 + 25_000_000 + 100_000_000);
    assert_eq!(info.enable_charge_fee_pool(), 98_681_000 + 8 * 25_000_000 + 7 * 100_000_000);
    assert_eq!(info.disable_charge_fee_pool(), 105_817_000 + 7 * 25_000_000 + 9 * 100_000_000);
    assert_eq!(info.on_finalize(), 10_840_000 + 2 * 25_000_000 + 100_000_000);
    assert_eq!(info.with_fee_path(), 156_000_000);
    assert_eq!(info.with_fee_currency(), 193_000_000 + 25_000_000);
}

#[test]
fn transaction_payment_weights_without_storage_cost() {
    let info = WeightInfo { db_weight: DbWeight { read: 0, write: 0 } };
    assert_eq!(info.set_alternative_fee_swap_path(), 34_312_000);
    assert_eq!(info.set_global_fee_swap_path(), 19_420_000);
    assert_eq!(info.remove_global_fee_swap_path(), 19_280_000);
    assert_eq!(info.enable_charge_fee_pool(), 98_681_000);
    assert_eq!(info.disable_charge_fee_pool(), 105_817_000);
    assert_eq!(info.on_finalize(), 10_840_000);
    assert_eq!(info.with_fee_currency(), 193_000_000);
}

#[test]
fn transaction_payment_weights_saturate() {
    let info = WeightInfo { db_weight: DbWeight { read: u64::MAX, write: 1 } };
    assert_eq!(info.set_alternative_fee_swap_path(), u64::MAX);
    assert_eq!(info.with_fee_currency(), u64::MAX);
    assert_eq!(info.with_fee_path(), 156_000_000);
    let info = WeightInfo { db_weight: DbWeight { read: 1, write: u64::MAX } };
    assert_eq!(info.on_finalize(), u64::MAX);
}
