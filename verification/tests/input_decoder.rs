use multicurrency_precompile::{Action, DecodeError, EvmAddress, Input};

fn selector_word(action: Action) -> [u8; 32] {
    let mut word = [0u8; 32];
    word[..4].copy_from_slice(&action.selector().to_be_bytes());
    word
}

fn address_word(address: [u8; 20]) -> [u8; 32] {
    let mut word = [0u8; 32];
    word[12..].copy_from_slice(&address);
    word
}

fn amount_word(amount: u128) -> [u8; 32] {
    let mut word = [0u8; 32];
    word[16..].copy_from_slice(&amount.to_be_bytes());
    word
}

fn buffer(words: &[[u8; 32]]) -> Vec<u8> {
    words.iter().flat_map(|w| w.iter().copied()).collect()
}

#[test]
fn new_keeps_buffer_and_gas() {
    let content = [1u8, 2, 3];
    let input = Input::new(&content, Some(7));
    assert_eq!(input.content, &content[..]);
    assert_eq!(input.target_gas, Some(7));
    let input = Input::new(&content, None);
    assert_eq!(input.target_gas, None);
}

#[test]
fn nth_param_hands_out_whole_words() {
    let mut content = vec![0u8; 96];
    for (i, b) in content.iter_mut().enumerate() {
        *b = i as u8;
    }
    let input = Input::new(&content, None);
    assert_eq!(input.nth_param(0), Ok(&content[0..32]));
    assert_eq!(input.nth_param(1), Ok(&content[32..64]));
    assert_eq!(input.nth_param(2), Ok(&content[64..96]));
    assert_eq!(input.nth_param(3), Err(DecodeError::TruncatedInput));
    assert_eq!(input.nth_param(usize::MAX), Err(DecodeError::TruncatedInput));
}

#[test]
fn nth_param_refuses_a_word_that_is_cut_short() {
    let content = vec![0u8; 63];
    let input = Input::new(&content, None);
    assert!(input.nth_param(0).is_ok());
    assert_eq!(input.nth_param(1), Err(DecodeError::TruncatedInput));
}

#[test]
fn action_is_read_from_the_first_four_bytes() {
    for action in [
        Action::QueryName,
        Action::QuerySymbol,
        Action::QueryDecimals,
        Action::QueryTotalIssuance,
        Action::QueryBalance,
        Action::Transfer,
    ] {
        let content = buffer(&[selector_word(action)]);
        assert_eq!(Input::new(&content, None).action(), Ok(action));
    }
}

#[test]
fn action_ignores_the_rest_of_the_selector_word() {
    let mut word = selector_word(Action::QuerySymbol);
    for b in word[4..].iter_mut() {
        *b = 0xff;
    }
    let content = buffer(&[word]);
    assert_eq!(Input::new(&content, None).action(), Ok(Action::QuerySymbol));
}

#[test]
fn action_of_an_unknown_selector_is_invalid() {
    let mut word = [0u8; 32];
    word[..4].copy_from_slice(&[0xde, 0xad, 0xbe, 0xef]);
    let content = buffer(&[word]);
    assert_eq!(Input::new(&content, None).action(), Err(DecodeError::InvalidSelector));
    let zeros = [0u8; 32];
    assert_eq!(Input::new(&zeros, None).action(), Err(DecodeError::InvalidSelector));
}

#[test]
fn action_of_a_short_buffer_is_truncated() {
    assert_eq!(Input::new(&[], None).action(), Err(DecodeError::TruncatedInput));
    let selector_only = Action::QueryName.selector().to_be_bytes();
    assert_eq!(Input::new(&selector_only, None).action(), Err(DecodeError::TruncatedInput));
    let almost = vec![0u8; 31];
    assert_eq!(Input::new(&almost, None).action(), Err(DecodeError::TruncatedInput));
}

#[test]
fn account_is_the_last_twenty_bytes() {
    let mut address = [0u8; 20];
    for (i, b) in address.iter_mut().enumerate() {
        *b = 0xa0 + i as u8;
    }
    let content = buffer(&[selector_word(Action::QueryBalance), address_word(address)]);
    let input = Input::new(&content, None);
    assert_eq!(input.account_id_at(1), Ok(EvmAddress(address)));
}

#[test]
fn account_zero_is_an_account() {
    let content = vec![0u8; 64];
    assert_eq!(Input::new(&content, None).account_id_at(1), Ok(EvmAddress([0u8; 20])));
}

#[test]
fn account_with_a_dirty_prefix_is_invalid() {
    for dirty in 0..12 {
        let mut word = address_word([7u8; 20]);
        word[dirty] = 1;
        let content = buffer(&[selector_word(Action::QueryBalance), word]);
        let input = Input::new(&content, None);
        assert_eq!(input.account_id_at(1), Err(DecodeError::InvalidAccount));
    }
}

#[test]
fn account_beyond_the_buffer_is_truncated() {
    let content = buffer(&[selector_word(Action::QueryBalance)]);
    let input = Input::new(&content, None);
    assert_eq!(input.account_id_at(1), Err(DecodeError::TruncatedInput));
    let mut cut = buffer(&[selector_word(Action::QueryBalance), address_word([1u8; 20])]);
    cut.pop();
    assert_eq!(Input::new(&cut, None).account_id_at(1), Err(DecodeError::TruncatedInput));
}

#[test]
fn amount_is_read_big_endian() {
    let content = buffer(&[
        selector_word(Action::Transfer),
        amount_word(100),
        amount_word(0x0102_0304_0506_0708_090a_0b0c_0d0e_0f10),
        amount_word(u128::MAX),
        amount_word(0),
    ]);
    let input = Input::new(&content, None);
    assert_eq!(input.balance_at(1), Ok(100));
    assert_eq!(input.balance_at(2), Ok(0x0102_0304_0506_0708_090a_0b0c_0d0e_0f10));
    assert_eq!(input.balance_at(3), Ok(u128::MAX));
    assert_eq!(input.balance_at(4), Ok(0));
}

#[test]
fn amount_above_the_largest_balance_overflows() {
    // 2^128
    let mut word = [0u8; 32];
    word[15] = 1;
    let content = buffer(&[selector_word(Action::Transfer), word]);
    assert_eq!(Input::new(&content, None).balance_at(1), Err(DecodeError::AmountOverflow));
    let content = buffer(&[selector_word(Action::Transfer), [0xffu8; 32]]);
    assert_eq!(Input::new(&content, None).balance_at(1), Err(DecodeError::AmountOverflow));
    let mut word = amount_word(5);
    word[0] = 0x80;
    let content = buffer(&[selector_word(Action::Transfer), word]);
    assert_eq!(Input::new(&content, None).balance_at(1), Err(DecodeError::AmountOverflow));
}

#[test]
fn amount_beyond_the_buffer_is_truncated() {
    let content = buffer(&[selector_word(Action::Transfer), amount_word(1)]);
    assert_eq!(Input::new(&content, None).balance_at(2), Err(DecodeError::TruncatedInput));
}
