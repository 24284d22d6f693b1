use multicurrency_precompile::{
    Action, CurrencyId, DbWeight, DecodeError, DexShare, EvmAddress, Input, Pricer, Runtime,
    WeightToGas,
};

const NATIVE: CurrencyId = CurrencyId::Token(0);
const OTHER: CurrencyId = CurrencyId::Token(1);
const READS: [Action; 5] = [
    Action::QueryName,
    Action::QuerySymbol,
    Action::QueryDecimals,
    Action::QueryTotalIssuance,
    Action::QueryBalance,
];

// One read weighs 25_000_000, which is 2_777 gas at 9_000 weight for one gas.
const READ_GAS: u64 = 2_777;

fn pricer() -> Pricer {
    Pricer {
        runtime: Runtime {
            native_currency_id: NATIVE,
            db_weight: DbWeight { read: 25_000_000, write: 100_000_000 },
            transfer_native_currency: 90_000_000,
            transfer_non_native_currency: 180_000_000,
            weight_to_gas: WeightToGas::new(9_000).expect("a ratio above zero"),
        },
    }
}

fn contract() -> EvmAddress {
    EvmAddress([0x42u8; 20])
}

fn selector_word(action: Action) -> Vec<u8> {
    let mut word = vec![0u8; 32];
    word[..4].copy_from_slice(&action.selector().to_be_bytes());
    word
}

#[test]
fn base_cost_is_two_hundred() {
    assert_eq!(Pricer::BASE_COST, 200);
}

#[test]
fn plain_assets_cost_the_base_cost_to_read() {
    let pricer = pricer();
    assert_eq!(pricer.read_cost(CurrencyId::Token(0)), 200);
    assert_eq!(pricer.read_cost(CurrencyId::Token(130)), 200);
    assert_eq!(pricer.read_cost(CurrencyId::LiquidCrowdloan(13)), 200);
}

#[test]
fn registry_assets_cost_one_storage_read() {
    let pricer = pricer();
    assert_eq!(pricer.read_cost(CurrencyId::Erc20(contract())), READ_GAS);
    assert_eq!(pricer.read_cost(CurrencyId::StableAssetPoolToken(0)), READ_GAS);
    assert_eq!(pricer.read_cost(CurrencyId::ForeignAsset(3)), READ_GAS);
}

#[test]
fn sides_of_a_share_are_classified_one_by_one() {
    let pricer = pricer();
    assert_eq!(pricer.dex_share_read_cost(DexShare::Token(0)), 200);
    assert_eq!(pricer.dex_share_read_cost(DexShare::LiquidCrowdloan(13)), 200);
    assert_eq!(pricer.dex_share_read_cost(DexShare::Erc20(contract())), READ_GAS);
    assert_eq!(pricer.dex_share_read_cost(DexShare::ForeignAsset(3)), READ_GAS);
}

#[test]
fn a_share_costs_the_sum_of_its_sides() {
    let pricer = pricer();
    let plain = DexShare::Token(0);
    let loan = DexShare::LiquidCrowdloan(1);
    let foreign = DexShare::ForeignAsset(3);
    let erc20 = DexShare::Erc20(contract());
    assert_eq!(pricer.read_cost(CurrencyId::DexShare(plain, loan)), 400);
    assert_eq!(pricer.read_cost(CurrencyId::DexShare(foreign, plain)), READ_GAS + 200);
    assert_eq!(pricer.read_cost(CurrencyId::DexShare(plain, foreign)), 200 + READ_GAS);
    assert_eq!(pricer.read_cost(CurrencyId::DexShare(erc20, foreign)), 2 * READ_GAS);
    for a in [plain, loan, foreign, erc20] {
        for b in [plain, loan, foreign, erc20] {
            assert_eq!(
                pricer.read_cost(CurrencyId::DexShare(a, b)),
                pricer.dex_share_read_cost(a) + pricer.dex_share_read_cost(b)
            );
        }
    }
}

#[test]
fn a_share_of_a_foreign_and_a_plain_asset_costs_base_read_base() {
    let pricer = pricer();
    let pair = CurrencyId::DexShare(DexShare::ForeignAsset(9), DexShare::Token(4));
    for action in READS {
        assert_eq!(
            pricer.action_cost(action, pair),
            Pricer::BASE_COST + pricer.read_cost(CurrencyId::ForeignAsset(9)) + Pricer::BASE_COST
        );
        assert_eq!(pricer.action_cost(action, pair), 200 + READ_GAS + 200);
    }
}

#[test]
fn reads_cost_base_and_read_cost() {
    let pricer = pricer();
    for action in READS {
        assert_eq!(pricer.action_cost(action, NATIVE), 400);
        assert_eq!(pricer.action_cost(action, CurrencyId::Erc20(contract())), 200 + READ_GAS);
    }
}

#[test]
fn transfers_cost_base_and_the_gas_of_their_weight() {
    let pricer = pricer();
    assert_eq!(pricer.action_cost(Action::Transfer, NATIVE), 200 + 10_000);
    assert_eq!(pricer.action_cost(Action::Transfer, OTHER), 200 + 20_000);
    assert_eq!(pricer.action_cost(Action::Transfer, CurrencyId::Erc20(contract())), 200 + 20_000);
    let pair = CurrencyId::DexShare(DexShare::Token(0), DexShare::Token(1));
    assert_eq!(pricer.action_cost(Action::Transfer, pair), 200 + 20_000);
}

#[test]
fn costs_saturate() {
    let mut pricer = pricer();
    pricer.runtime.weight_to_gas = WeightToGas::new(1).expect("a ratio above zero");
    pricer.runtime.transfer_non_native_currency = u64::MAX;
    pricer.runtime.transfer_native_currency = u64::MAX - 200;
    pricer.runtime.db_weight = DbWeight { read: u64::MAX - 100, write: 0 };
    assert_eq!(pricer.action_cost(Action::Transfer, OTHER), u64::MAX);
    assert_eq!(pricer.action_cost(Action::Transfer, NATIVE), u64::MAX);
    assert_eq!(pricer.read_cost(CurrencyId::ForeignAsset(0)), u64::MAX - 100);
    assert_eq!(pricer.action_cost(Action::QueryName, CurrencyId::ForeignAsset(0)), u64::MAX);
    let pair = CurrencyId::DexShare(DexShare::ForeignAsset(0), DexShare::ForeignAsset(1));
    assert_eq!(pricer.read_cost(pair), u64::MAX);
    assert_eq!(pricer.action_cost(Action::QueryBalance, pair), u64::MAX);
}

#[test]
fn cost_of_a_call_is_the_cost_of_its_action() {
    let pricer = pricer();
    for action in READS.iter().copied().chain([Action::Transfer]) {
        for asset in [NATIVE, OTHER, CurrencyId::ForeignAsset(1)] {
            let content = selector_word(action);
            let input = Input::new(&content, Some(5));
            assert_eq!(pricer.cost(&input, asset), Ok(pricer.action_cost(action, asset)));
        }
    }
}

#[test]
fn cost_is_the_same_however_often_it_is_asked() {
    let pricer = pricer();
    let pair = CurrencyId::DexShare(DexShare::Erc20(contract()), DexShare::Token(2));
    let short = selector_word(Action::QueryBalance);
    let mut long = selector_word(Action::QueryBalance);
    long.extend_from_slice(&[0xffu8; 64]);
    let first = pricer.cost(&Input::new(&short, None), pair);
    let second = pricer.cost(&Input::new(&long, Some(1)), pair);
    let third = pricer.cost(&Input::new(&short, Some(u64::MAX)), pair);
    assert_eq!(first, Ok(200 + READ_GAS + 200));
    assert_eq!(first, second);
    assert_eq!(first, third);
}

#[test]
fn cost_of_an_unreadable_call_is_its_decode_error() {
    let pricer = pricer();
    assert_eq!(pricer.cost(&Input::new(&[], None), NATIVE), Err(DecodeError::TruncatedInput));
    let unknown = [0xeeu8; 32];
    assert_eq!(
        pricer.cost(&Input::new(&unknown, None), NATIVE),
        Err(DecodeError::InvalidSelector)
    );
}
