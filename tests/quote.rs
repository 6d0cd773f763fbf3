use one_intro::one_intro_amm::{
    exact_in_curve_amount, swap_exact_amount_in, swap_exact_amount_out, OneIntroAmm, QuoteParams,
    SwapMode,
};
use one_intro::one_intro_calc::{proportional, value_from_shares, ErrorCode, PONE};
use one_intro::one_intro_state::{
    decode_pool_state, AccountKey, PoolState, TokenRecord, STATE_DATA_LEN,
};

fn key(b: u8) -> AccountKey {
    AccountKey { bytes: [b; 32] }
}

fn record(mint: u8, account: u8, balance: u64, weight: u64) -> TokenRecord {
    TokenRecord { mint_key: key(mint), account_key: key(account), balance, weight }
}

fn pool(b0: u64, b1: u64, fee: u64) -> OneIntroAmm {
    let state = PoolState {
        pool_auth_pda_key: key(9),
        pool_auth_pda_bump: 255,
        pool_lp_mint_key: key(8),
        pool_lp_virtual_supply: 1_000,
        pool_token_count: 2,
        pool_token_array: [record(1, 11, b0, 1), record(2, 12, b1, 3), record(0, 0, 0, 0), record(0, 0, 0, 0)],
        pool_token_total_weight: 4,
        pool_swap_fee_ratio: fee,
    };
    OneIntroAmm::new(key(7), key(6), state)
}

#[test]
fn proportional_floors() {
    assert_eq!(proportional(10, 3, 4), Ok(7));
    assert_eq!(proportional(u64::MAX, u64::MAX, u64::MAX), Ok(u64::MAX));
}

#[test]
fn proportional_zero_denominator_keeps_amount() {
    assert_eq!(proportional(123, 456, 0), Ok(123));
}

#[test]
fn proportional_overflow_fails() {
    assert_eq!(proportional(u64::MAX, 2, 1), Err(ErrorCode::CalculationFailure));
}

#[test]
fn value_from_shares_scales() {
    assert_eq!(value_from_shares(PONE / 2, 1_000_001, PONE), Ok(500_000));
}

#[test]
fn guard_flags_input_over_half_reserve() {
    let big = swap_exact_amount_in(1_000_000, 600_000, 0, 1).unwrap();
    assert!(big.not_enough_liquidity);
    let small = swap_exact_amount_in(1_000_000, 400_000, 0, 1).unwrap();
    assert!(!small.not_enough_liquidity);
}

#[test]
fn exact_in_takes_fee_from_input() {
    // 0.3% fee on 1_000
    let s = swap_exact_amount_in(100_000, 1_000, 3_000_000, 985).unwrap();
    assert_eq!(s.in_amount, 1_000);
    assert_eq!(s.fee_amount, 3);
    assert_eq!(s.out_amount, 985);
    assert_eq!(exact_in_curve_amount(1_000, 3_000_000), Ok(997));
}

#[test]
fn exact_in_fee_above_input_fails() {
    assert_eq!(exact_in_curve_amount(1_000, 2 * PONE), Err(ErrorCode::CalculationFailure));
    assert_eq!(swap_exact_amount_in(100, 1_000, 2 * PONE, 5), Err(ErrorCode::CalculationFailure));
}

#[test]
fn exact_out_grosses_up_input() {
    // 10% fee: 900 net needs 1_000 gross
    let s = swap_exact_amount_out(100_000, 500, 100_000_000, 900).unwrap();
    assert_eq!(s.in_amount, 1_000);
    assert_eq!(s.fee_amount, 100);
    assert_eq!(s.out_amount, 500);
    assert!(!s.not_enough_liquidity);
    let t = swap_exact_amount_out(100_000, 50_001, 0, 900).unwrap();
    assert_eq!(t.in_amount, 900);
    assert_eq!(t.fee_amount, 0);
    assert!(t.not_enough_liquidity);
}

#[test]
fn exact_out_full_fee_ratio_fails() {
    assert_eq!(swap_exact_amount_out(100, 5, PONE, 10), Err(ErrorCode::CalculationFailure));
}

#[test]
fn fee_raises_exact_out_input() {
    let low = swap_exact_amount_out(100_000, 500, 1_000_000, 900).unwrap();
    let high = swap_exact_amount_out(100_000, 500, 50_000_000, 900).unwrap();
    assert!(high.in_amount > low.in_amount);
    let low_net = exact_in_curve_amount(10_000, 1_000_000).unwrap();
    let high_net = exact_in_curve_amount(10_000, 50_000_000).unwrap();
    assert!(high_net < low_net);
}

#[test]
fn zero_amount_is_rejected() {
    let amm = pool(100_000, 100_000, 0);
    let params = QuoteParams { input_mint: key(1), amount: 0, swap_mode: SwapMode::ExactIn };
    assert_eq!(amm.curve_request(&params).unwrap_err(), ErrorCode::ValidationTooSmallTokenInAmount);
    assert_eq!(amm.quote(&params, 990).unwrap_err(), ErrorCode::ValidationTooSmallTokenInAmount);
}

#[test]
fn equal_weight_zero_fee_quote() {
    let amm = pool(100_000, 100_000, 0);
    let params = QuoteParams { input_mint: key(1), amount: 1_000, swap_mode: SwapMode::ExactIn };
    let req = amm.curve_request(&params).unwrap();
    assert_eq!(req.amount, 1_000);
    assert_eq!(req.legs.token_in_balance, 100_000);
    // constant-product result for these reserves: floor(100_000 * 1_000 / 101_000)
    let q = amm.quote(&params, 990).unwrap();
    assert_eq!(q.in_amount, 1_000);
    assert_eq!(q.out_amount, 990);
    assert_eq!(q.fee_amount, 0);
    assert!(!q.not_enough_liquidity);
    assert_eq!(q.fee_mint.bytes, [1u8; 32]);
}

#[test]
fn zero_output_is_rejected() {
    let amm = pool(100_000, 100_000, 0);
    let params = QuoteParams { input_mint: key(1), amount: 1, swap_mode: SwapMode::ExactIn };
    assert_eq!(amm.quote(&params, 0).unwrap_err(), ErrorCode::ValidationTooSmallTokenOutAmount);
}

#[test]
fn legs_follow_input_mint() {
    let amm = pool(10, 20, 0);
    let a = amm.select_legs(&key(1));
    assert_eq!((a.token_in_balance, a.token_in_weight, a.token_out_balance, a.token_out_weight), (10, 1, 20, 3));
    let b = amm.select_legs(&key(2));
    assert_eq!((b.token_in_balance, b.token_in_weight, b.token_out_balance, b.token_out_weight), (20, 3, 10, 1));
    let (i, o) = amm.swap_accounts(&key(2));
    assert_eq!((i.bytes, o.bytes), ([12u8; 32], [11u8; 32]));
}

#[test]
fn exact_out_request_keeps_amount() {
    let amm = pool(10_000, 20_000, 3_000_000);
    let params = QuoteParams { input_mint: key(2), amount: 500, swap_mode: SwapMode::ExactOut };
    let req = amm.curve_request(&params).unwrap();
    assert_eq!(req.amount, 500);
    assert_eq!(req.legs.token_in_balance, 20_000);
    let q = amm.quote(&params, 997).unwrap();
    assert_eq!(q.in_amount, 1_000);
    assert_eq!(q.fee_amount, 3);
    assert_eq!(q.out_amount, 500);
    assert_eq!(q.fee_ratio, 3_000_000);
}

#[test]
fn reserve_mints_skip_null_legs() {
    let amm = pool(1, 1, 0);
    let mints = amm.get_reserve_mints();
    assert_eq!(mints.len(), 2);
    assert_eq!(mints[0].bytes, [1u8; 32]);
    assert_eq!(mints[1].bytes, [2u8; 32]);
}

fn encode(s: &PoolState) -> Vec<u8> {
    let mut d = vec![0xAAu8; 8];
    d.extend_from_slice(&s.pool_auth_pda_key.bytes);
    d.push(s.pool_auth_pda_bump);
    d.extend_from_slice(&s.pool_lp_mint_key.bytes);
    d.extend_from_slice(&s.pool_lp_virtual_supply.to_le_bytes());
    d.extend_from_slice(&s.pool_token_count.to_le_bytes());
    for t in s.pool_token_array.iter() {
        d.extend_from_slice(&t.mint_key.bytes);
        d.extend_from_slice(&t.account_key.bytes);
        d.extend_from_slice(&t.balance.to_le_bytes());
        d.extend_from_slice(&t.weight.to_le_bytes());
    }
    d.extend_from_slice(&s.pool_token_total_weight.to_le_bytes());
    d.extend_from_slice(&s.pool_swap_fee_ratio.to_le_bytes());
    d
}

#[test]
fn decode_reads_packed_fields() {
    let s = pool(0x0102_0304_0506_0708, 77, 3_000_000).state();
    let d = encode(&s);
    assert_eq!(d.len(), STATE_DATA_LEN);
    let t = decode_pool_state(&d).unwrap();
    assert_eq!(t.pool_auth_pda_key.bytes, [9u8; 32]);
    assert_eq!(t.pool_auth_pda_bump, 255);
    assert_eq!(t.pool_lp_mint_key.bytes, [8u8; 32]);
    assert_eq!(t.pool_lp_virtual_supply, 1_000);
    assert_eq!(t.pool_token_count, 2);
    assert_eq!(t.pool_token_array[0].balance, 0x0102_0304_0506_0708);
    assert_eq!(t.pool_token_array[1].balance, 77);
    assert_eq!(t.pool_token_array[1].weight, 3);
    assert_eq!(t.pool_token_array[1].account_key.bytes, [12u8; 32]);
    assert_eq!(t.pool_token_array[2].mint_key.bytes, [0u8; 32]);
    assert_eq!(t.pool_token_total_weight, 4);
    assert_eq!(t.pool_swap_fee_ratio, 3_000_000);
}

#[test]
fn decode_short_data_fails() {
    let d = encode(&pool(1, 1, 0).state());
    assert_eq!(decode_pool_state(&d[..STATE_DATA_LEN - 1]).unwrap_err(), ErrorCode::AccountDataTooShort);
    assert!(OneIntroAmm::from_keyed_account(key(7), key(6), &d[..4]).is_err());
    let amm = OneIntroAmm::from_keyed_account(key(7), key(6), &d).unwrap();
    assert_eq!(amm.key().bytes, [7u8; 32]);
    assert_eq!(amm.program_id().bytes, [6u8; 32]);
}

#[test]
fn update_replaces_or_keeps_state() {
    let mut amm = pool(1, 1, 0);
    assert_eq!(amm.get_accounts_to_update()[0].bytes, [7u8; 32]);
    assert_eq!(amm.update(None), Err(ErrorCode::StateNotFound));
    assert_eq!(amm.state().pool_token_array[0].balance, 1);
    let fresh = encode(&pool(5, 6, 0).state());
    assert_eq!(amm.update(Some(&fresh[..100])), Err(ErrorCode::AccountDataTooShort));
    assert_eq!(amm.state().pool_token_array[0].balance, 1);
    assert_eq!(amm.update(Some(&fresh)), Ok(()));
    assert_eq!(amm.state().pool_token_array[0].balance, 5);
}
