//! Swap orchestration: fee accounting around the curve, the liquidity guard,
//! leg selection and the quote built from them.
//!
//! The weighted-value curve itself is evaluated in floating point by the
//! caller; every function here takes its rounded integer result as an
//! argument and is exact for every value of it.
use vstd::prelude::*;
use crate::one_intro_calc::{
    scaled, value_from_shares, ErrorCode, MAX_IN_RATIO, MAX_OUT_RATIO, PONE,
};
use crate::one_intro_state::{
    decode_pool_state, state_decoded, AccountKey, PoolState, TokenRecord, STATE_DATA_LEN,
};

verus! {

/// Amounts of one quoted swap.
#[derive(Clone, Copy, Debug, PartialEq, Eq, Structural)]
pub struct SwapAmounts {
    pub in_amount: u64,
    pub out_amount: u64,
    pub fee_amount: u64,
    /// The trade exceeds half of the reserve on its fixed side.
    pub not_enough_liquidity: bool,
}

/// Fee taken out of an exact input: `floor(amount * ratio / PONE)`.
pub open spec fn exact_in_fee(token_in_amount: u64, swap_fee_ratio: u64) -> int {
    scaled(swap_fee_ratio, token_in_amount, PONE)
}

/// Whether the fee of an exact input can be taken: it fits and does not
/// exceed the input.
pub open spec fn exact_in_ok(token_in_amount: u64, swap_fee_ratio: u64) -> bool {
    exact_in_fee(token_in_amount, swap_fee_ratio) <= token_in_amount
}

/// Gross input owed for a net curve input: `floor(PONE * net / (PONE - ratio))`.
pub open spec fn exact_out_gross(curve_in_amount: u64, swap_fee_ratio: u64) -> int
    recommends
        swap_fee_ratio < PONE,
{
    (PONE as int * curve_in_amount as int) / (PONE as int - swap_fee_ratio as int)
}

/// Whether an exact-output quote can be completed for a given curve input.
pub open spec fn exact_out_ok(curve_in_amount: u64, swap_fee_ratio: u64) -> bool {
    swap_fee_ratio < PONE && exact_out_gross(curve_in_amount, swap_fee_ratio) <= u64::MAX
}

/// Largest input that stays within the guard: half of the input reserve.
pub open spec fn max_in(token_in_balance: u64) -> int {
    scaled(MAX_IN_RATIO, token_in_balance, PONE)
}

/// Largest output that stays within the guard: half of the output reserve.
pub open spec fn max_out(token_out_balance: u64) -> int {
    scaled(MAX_OUT_RATIO, token_out_balance, PONE)
}

proof fn lemma_fee_fits(token_in_amount: u64, swap_fee_ratio: u64)
    ensures
        exact_in_fee(token_in_amount, swap_fee_ratio) >= 0,
        exact_in_ok(token_in_amount, swap_fee_ratio) ==> exact_in_fee(token_in_amount, swap_fee_ratio) <= u64::MAX,
{
    assert((swap_fee_ratio as int) * (token_in_amount as int) >= 0) by (nonlinear_arith);
}

proof fn lemma_half(balance: u64)
    ensures
        0 <= scaled(MAX_IN_RATIO, balance, PONE) <= balance,
        scaled(MAX_IN_RATIO, balance, PONE) == balance as int / 2,
        scaled(MAX_OUT_RATIO, balance, PONE) == balance as int / 2,
{
    assert((500_000_000int * balance as int) / 1_000_000_000int == balance as int / 2) by (nonlinear_arith);
}

/// A higher fee ratio never hands the curve a larger net input in
/// exact-input mode: if the fee can be taken at the higher ratio it can be
/// taken at the lower one, and the net input there is at least as large.
pub proof fn lemma_exact_in_net_non_increasing(token_in_amount: u64, low_ratio: u64, high_ratio: u64)
    requires
        low_ratio <= high_ratio,
        exact_in_ok(token_in_amount, high_ratio),
    ensures
        exact_in_ok(token_in_amount, low_ratio),
        token_in_amount - exact_in_fee(token_in_amount, high_ratio)
            <= token_in_amount - exact_in_fee(token_in_amount, low_ratio),
{
    assert((low_ratio as int) * (token_in_amount as int) <= (high_ratio as int) * (token_in_amount as int))
        by (nonlinear_arith)
        requires
            low_ratio <= high_ratio,
    ;
    vstd::arithmetic::div_mod::lemma_div_is_ordered(
        (low_ratio as int) * (token_in_amount as int),
        (high_ratio as int) * (token_in_amount as int),
        PONE as int,
    );
}

/// A higher fee ratio never lowers the gross input of an exact-output
/// quote for the same curve input: if the quote completes at the higher
/// ratio it completes at the lower one, with an input no larger.
pub proof fn lemma_exact_out_gross_non_decreasing(curve_in_amount: u64, low_ratio: u64, high_ratio: u64)
    requires
        low_ratio <= high_ratio,
        exact_out_ok(curve_in_amount, high_ratio),
    ensures
        exact_out_ok(curve_in_amount, low_ratio),
        exact_out_gross(curve_in_amount, low_ratio) <= exact_out_gross(curve_in_amount, high_ratio),
{
    assert(PONE as int * curve_in_amount as int >= 0) by (nonlinear_arith);
    vstd::arithmetic::div_mod::lemma_div_is_ordered_by_denominator(
        PONE as int * curve_in_amount as int,
        PONE as int - high_ratio as int,
        PONE as int - low_ratio as int,
    );
}

/// Net amount handed to the curve for an exact input: the input less its fee.
pub fn exact_in_curve_amount(token_in_amount: u64, swap_fee_ratio: u64) -> (r: Result<u64, ErrorCode>)
    ensures
        r.is_ok() <==> exact_in_ok(token_in_amount, swap_fee_ratio),
        r matches Ok(v) ==> v == token_in_amount - exact_in_fee(token_in_amount, swap_fee_ratio),
        r matches Err(e) ==> e == ErrorCode::CalculationFailure,
{
    proof { lemma_fee_fits(token_in_amount, swap_fee_ratio); }
    let fee = value_from_shares(swap_fee_ratio, token_in_amount, PONE)?;
    if fee > token_in_amount {
        return Err(ErrorCode::CalculationFailure);
    }
    Ok(token_in_amount - fee)
}

/// Completes an exact-input swap from the curve's output for the net input
/// (`token_out_amount`): the input stays as requested, the fee is taken out
/// of it, and the guard compares the input with half of its reserve.
pub fn swap_exact_amount_in(
    token_in_balance: u64,
    token_in_amount: u64,
    swap_fee_ratio: u64,
    token_out_amount: u64,
) -> (r: Result<SwapAmounts, ErrorCode>)
    ensures
        r.is_ok() <==> exact_in_ok(token_in_amount, swap_fee_ratio),
        r matches Ok(s) ==> (s == SwapAmounts {
            in_amount: token_in_amount,
            out_amount: token_out_amount,
            fee_amount: exact_in_fee(token_in_amount, swap_fee_ratio) as u64,
            not_enough_liquidity: token_in_amount > max_in(token_in_balance),
        }),
        r matches Err(e) ==> e == ErrorCode::CalculationFailure,
{
    proof {
        lemma_half(token_in_balance);
        lemma_fee_fits(token_in_amount, swap_fee_ratio);
    }
    let max_token_in_amount = value_from_shares(MAX_IN_RATIO, token_in_balance, PONE)?;
    let swap_fee_amount = value_from_shares(swap_fee_ratio, token_in_amount, PONE)?;
    if swap_fee_amount > token_in_amount {
        return Err(ErrorCode::CalculationFailure);
    }
    Ok(SwapAmounts {
        in_amount: token_in_amount,
        out_amount: token_out_amount,
        fee_amount: swap_fee_amount,
        not_enough_liquidity: token_in_amount > max_token_in_amount,
    })
}

/// Completes an exact-output swap from the curve's input before fees
/// (`curve_in_amount`): the input is grossed up so that, less the fee, it
/// leaves the curve's input; the guard compares the output with half of its
/// reserve. A fee ratio of `PONE` or more is a configuration error.
pub fn swap_exact_amount_out(
    token_out_balance: u64,
    token_out_amount: u64,
    swap_fee_ratio: u64,
    curve_in_amount: u64,
) -> (r: Result<SwapAmounts, ErrorCode>)
    ensures
        r.is_ok() <==> exact_out_ok(curve_in_amount, swap_fee_ratio),
        r matches Ok(s) ==> (s == SwapAmounts {
            in_amount: exact_out_gross(curve_in_amount, swap_fee_ratio) as u64,
            out_amount: token_out_amount,
            fee_amount: (exact_out_gross(curve_in_amount, swap_fee_ratio) - curve_in_amount) as u64,
            not_enough_liquidity: token_out_amount > max_out(token_out_balance),
        }),
        r matches Ok(s) ==> s.in_amount >= curve_in_amount,
        r matches Err(e) ==> e == ErrorCode::CalculationFailure,
{
    proof { lemma_half(token_out_balance); }
    let max_token_out_amount = value_from_shares(MAX_OUT_RATIO, token_out_balance, PONE)?;
    if swap_fee_ratio >= PONE {
        return Err(ErrorCode::CalculationFailure);
    }
    let token_in_amount = value_from_shares(PONE, curve_in_amount, PONE - swap_fee_ratio)?;
    proof {
        let d = PONE as int - swap_fee_ratio as int;
        let n = curve_in_amount as int;
        assert(0 < d <= PONE as int);
        assert((PONE as int * n) / d >= n) by (nonlinear_arith)
            requires
                0 < d <= PONE as int,
                n >= 0,
        {
            assert(PONE as int * n >= d * n);
            assert((d * n) / d == n);
            vstd::arithmetic::div_mod::lemma_div_is_ordered(d * n, PONE as int * n, d);
        }
    }
    let swap_fee_amount = token_in_amount - curve_in_amount;
    Ok(SwapAmounts {
        in_amount: token_in_amount,
        out_amount: token_out_amount,
        fee_amount: swap_fee_amount,
        not_enough_liquidity: token_out_amount > max_token_out_amount,
    })
}

/// Trade mode of a quote request.
#[derive(Clone, Copy, Debug, PartialEq, Eq, Structural)]
pub enum SwapMode {
    ExactIn,
    ExactOut,
}

/// A quote request: the mint paid in, the mode and the fixed amount.
#[derive(Clone, Copy, Debug)]
pub struct QuoteParams {
    pub input_mint: AccountKey,
    pub amount: u64,
    pub swap_mode: SwapMode,
}

/// Balances and weights of the two legs of a swap, input side first.
#[derive(Clone, Copy, Debug, PartialEq, Eq, Structural)]
pub struct Legs {
    pub token_in_balance: u64,
    pub token_in_weight: u64,
    pub token_out_balance: u64,
    pub token_out_weight: u64,
}

/// What the curve is to be evaluated on: out-given-in for an exact input
/// (with the input net of fees), in-given-out for an exact output.
#[derive(Clone, Copy, Debug, PartialEq, Eq, Structural)]
pub struct CurveRequest {
    pub legs: Legs,
    pub amount: u64,
}

/// A completed quote. The fee is charged in the input mint; `fee_ratio` is
/// the pool's fee as a fraction with nine decimal digits.
#[derive(Clone, Copy, Debug)]
pub struct Quote {
    pub in_amount: u64,
    pub out_amount: u64,
    pub fee_amount: u64,
    pub fee_mint: AccountKey,
    pub fee_ratio: u64,
    pub not_enough_liquidity: bool,
}

/// A pool of this program, keyed by its state account.
#[derive(Clone, Copy, Debug)]
pub struct OneIntroAmm {
    key: AccountKey,
    program_id: AccountKey,
    state: PoolState,
}

/// The legs of a swap paying in `input_mint`: leg 0 in and leg 1 out when
/// the mint is leg 0's, otherwise leg 1 in and leg 0 out.
pub open spec fn legs_spec(state: PoolState, input_mint: AccountKey) -> Legs {
    let r0 = state.pool_token_array[0];
    let r1 = state.pool_token_array[1];
    if input_mint.bytes@ == r0.mint_key.bytes@ {
        Legs {
            token_in_balance: r0.balance,
            token_in_weight: r0.weight,
            token_out_balance: r1.balance,
            token_out_weight: r1.weight,
        }
    } else {
        Legs {
            token_in_balance: r1.balance,
            token_in_weight: r1.weight,
            token_out_balance: r0.balance,
            token_out_weight: r0.weight,
        }
    }
}

/// Mints of the legs in use, in slot order, without the null placeholder.
pub open spec fn reserve_mints_spec(state: PoolState) -> Seq<AccountKey> {
    state.pool_token_array@.map_values(|t: TokenRecord| t.mint_key).filter(
        |k: AccountKey| !k.is_null_spec(),
    )
}

/// Whether the fee arithmetic of a swap succeeds for a curve result.
pub open spec fn swap_ok(mode: SwapMode, amount: u64, ratio: u64, curve_amount: u64) -> bool {
    match mode {
        SwapMode::ExactIn => exact_in_ok(amount, ratio),
        SwapMode::ExactOut => exact_out_ok(curve_amount, ratio),
    }
}

/// Amounts of a swap whose fee arithmetic succeeds.
pub open spec fn swap_spec(legs: Legs, mode: SwapMode, amount: u64, ratio: u64, curve_amount: u64) -> SwapAmounts {
    match mode {
        SwapMode::ExactIn => SwapAmounts {
            in_amount: amount,
            out_amount: curve_amount,
            fee_amount: exact_in_fee(amount, ratio) as u64,
            not_enough_liquidity: amount > max_in(legs.token_in_balance),
        },
        SwapMode::ExactOut => SwapAmounts {
            in_amount: exact_out_gross(curve_amount, ratio) as u64,
            out_amount: amount,
            fee_amount: (exact_out_gross(curve_amount, ratio) - curve_amount) as u64,
            not_enough_liquidity: amount > max_out(legs.token_out_balance),
        },
    }
}

/// The outcome of a quote on `state` for `params`, given the curve's result.
pub open spec fn quote_spec(state: PoolState, params: QuoteParams, curve_amount: u64) -> Result<Quote, ErrorCode> {
    let legs = legs_spec(state, params.input_mint);
    let ratio = state.pool_swap_fee_ratio;
    let s = swap_spec(legs, params.swap_mode, params.amount, ratio, curve_amount);
    if params.amount == 0 {
        Err(ErrorCode::ValidationTooSmallTokenInAmount)
    } else if !swap_ok(params.swap_mode, params.amount, ratio, curve_amount) {
        Err(ErrorCode::CalculationFailure)
    } else if s.out_amount == 0 {
        Err(ErrorCode::ValidationTooSmallTokenOutAmount)
    } else {
        Ok(Quote {
            in_amount: s.in_amount,
            out_amount: s.out_amount,
            fee_amount: s.fee_amount,
            fee_mint: params.input_mint,
            fee_ratio: ratio,
            not_enough_liquidity: s.not_enough_liquidity,
        })
    }
}

impl OneIntroAmm {
    pub closed spec fn key_spec(&self) -> AccountKey {
        self.key
    }

    pub closed spec fn program_id_spec(&self) -> AccountKey {
        self.program_id
    }

    pub closed spec fn state_spec(&self) -> PoolState {
        self.state
    }

    pub fn new(key: AccountKey, program_id: AccountKey, state: PoolState) -> (r: OneIntroAmm)
        ensures
            r.key_spec() == key,
            r.program_id_spec() == program_id,
            r.state_spec() == state,
    {
        OneIntroAmm { key, program_id, state }
    }

    pub fn key(&self) -> (r: AccountKey)
        ensures
            r == self.key_spec(),
    {
        self.key
    }

    pub fn program_id(&self) -> (r: AccountKey)
        ensures
            r == self.program_id_spec(),
    {
        self.program_id
    }

    pub fn state(&self) -> (r: PoolState)
        ensures
            r == self.state_spec(),
    {
        self.state
    }

    /// The single account whose data refreshes this pool: its own key.
    pub fn get_accounts_to_update(&self) -> (r: Vec<AccountKey>)
        ensures
            r@ == seq![self.key_spec()],
    {
        let mut v: Vec<AccountKey> = Vec::new();
        v.push(self.key);
        v
    }

    /// A pool from its state account: its key, owning program and data.
    pub fn from_keyed_account(key: AccountKey, owner: AccountKey, data: &[u8]) -> (r: Result<OneIntroAmm, ErrorCode>)
        ensures
            r.is_ok() <==> data@.len() >= STATE_DATA_LEN,
            r matches Ok(a) ==> a.key_spec() == key && a.program_id_spec() == owner
                && state_decoded(a.state_spec(), data@),
            r matches Err(e) ==> e == ErrorCode::AccountDataTooShort,
    {
        let state = decode_pool_state(data)?;
        Ok(OneIntroAmm { key, program_id: owner, state })
    }

    /// Replaces the snapshot with the state decoded from the pool account's
    /// fetched data. Fails, keeping the old snapshot, when the account was not
    /// fetched or its data is too short.
    pub fn update(&mut self, fetched: Option<&[u8]>) -> (r: Result<(), ErrorCode>)
        ensures
            final(self).key_spec() == old(self).key_spec(),
            final(self).program_id_spec() == old(self).program_id_spec(),
            fetched is None ==> r == Err::<(), ErrorCode>(ErrorCode::StateNotFound),
            fetched matches Some(d) ==> (r.is_ok() <==> d@.len() >= STATE_DATA_LEN),
            fetched matches Some(d) && d@.len() < STATE_DATA_LEN ==> r == Err::<(), ErrorCode>(
                ErrorCode::AccountDataTooShort,
            ),
            fetched matches Some(d) ==> (r is Ok ==> state_decoded(final(self).state_spec(), d@)),
            r is Err ==> final(self).state_spec() == old(self).state_spec(),
    {
        match fetched {
            Some(d) => {
                let s = decode_pool_state(d)?;
                self.state = s;
                Ok(())
            },
            None => Err(ErrorCode::StateNotFound),
        }
    }

    /// Mints of the legs in use.
    pub fn get_reserve_mints(&self) -> (r: Vec<AccountKey>)
        ensures
            r@ == reserve_mints_spec(self.state_spec()),
    {
        let arr = self.state.pool_token_array;
        let ghost keys = arr@.map_values(|t: TokenRecord| t.mint_key);
        let ghost f = |k: AccountKey| !k.is_null_spec();
        let mut out: Vec<AccountKey> = Vec::new();
        let mut i: usize = 0;
        while i < 4
            invariant
                0 <= i <= 4,
                arr@.len() == 4,
                keys == arr@.map_values(|t: TokenRecord| t.mint_key),
                out@ == keys.take(i as int).filter(f),
                forall|k: AccountKey| #[trigger] f(k) == !k.is_null_spec(),
            decreases 4 - i,
        {
            let k = arr[i].mint_key;
            proof {
                assert(keys.take(i as int + 1).drop_last() =~= keys.take(i as int));
                assert(keys.take(i as int + 1).last() == k);
                reveal(Seq::filter);
                assert(keys.take(i as int + 1).filter(f) == if f(k) {
                    keys.take(i as int).filter(f).push(k)
                } else {
                    keys.take(i as int).filter(f)
                });
            }
            if !k.is_null() {
                out.push(k);
            }
            i = i + 1;
        }
        assert(keys.take(4) =~= keys);
        out
    }

    /// Balances and weights of the two legs for a swap paying in `input_mint`.
    pub fn select_legs(&self, input_mint: &AccountKey) -> (r: Legs)
        ensures
            r == legs_spec(self.state_spec(), *input_mint),
    {
        let r0 = self.state.pool_token_array[0];
        let r1 = self.state.pool_token_array[1];
        if input_mint.same_as(&r0.mint_key) {
            Legs {
                token_in_balance: r0.balance,
                token_in_weight: r0.weight,
                token_out_balance: r1.balance,
                token_out_weight: r1.weight,
            }
        } else {
            Legs {
                token_in_balance: r1.balance,
                token_in_weight: r1.weight,
                token_out_balance: r0.balance,
                token_out_weight: r0.weight,
            }
        }
    }

    /// Pool custody accounts of the input and the output leg for a swap
    /// paying in `source_mint`, selected as `select_legs` does.
    pub fn swap_accounts(&self, source_mint: &AccountKey) -> (r: (AccountKey, AccountKey))
        ensures
            ({
                let r0 = self.state_spec().pool_token_array[0];
                let r1 = self.state_spec().pool_token_array[1];
                if source_mint.bytes@ == r0.mint_key.bytes@ {
                    r == (r0.account_key, r1.account_key)
                } else {
                    r == (r1.account_key, r0.account_key)
                }
            }),
    {
        let r0 = self.state.pool_token_array[0];
        let r1 = self.state.pool_token_array[1];
        if source_mint.same_as(&r0.mint_key) {
            (r0.account_key, r1.account_key)
        } else {
            (r1.account_key, r0.account_key)
        }
    }

    /// First half of a quote: validates the request and says on which legs
    /// and amount the curve is to be evaluated.
    pub fn curve_request(&self, params: &QuoteParams) -> (r: Result<CurveRequest, ErrorCode>)
        ensures
            params.amount == 0 ==> r == Err::<CurveRequest, ErrorCode>(ErrorCode::ValidationTooSmallTokenInAmount),
            params.amount > 0 && params.swap_mode == SwapMode::ExactIn ==> {
                &&& r.is_ok() <==> exact_in_ok(params.amount, self.state_spec().pool_swap_fee_ratio)
                &&& r matches Ok(c) ==> c.legs == legs_spec(self.state_spec(), params.input_mint)
                    && c.amount == params.amount - exact_in_fee(params.amount, self.state_spec().pool_swap_fee_ratio)
                &&& r matches Err(e) ==> e == ErrorCode::CalculationFailure
            },
            params.amount > 0 && params.swap_mode == SwapMode::ExactOut ==> r == Ok::<CurveRequest, ErrorCode>(
                CurveRequest { legs: legs_spec(self.state_spec(), params.input_mint), amount: params.amount },
            ),
    {
        if params.amount == 0 {
            return Err(ErrorCode::ValidationTooSmallTokenInAmount);
        }
        let legs = self.select_legs(&params.input_mint);
        match params.swap_mode {
            SwapMode::ExactIn => {
                let net = exact_in_curve_amount(params.amount, self.state.pool_swap_fee_ratio)?;
                Ok(CurveRequest { legs, amount: net })
            },
            SwapMode::ExactOut => Ok(CurveRequest { legs, amount: params.amount }),
        }
    }

    /// Second half of a quote: given the curve's rounded result for the
    /// request of `curve_request` (the output for an exact input, the input
    /// before fees for an exact output), applies the fee and the guard.
    pub fn quote(&self, params: &QuoteParams, curve_amount: u64) -> (r: Result<Quote, ErrorCode>)
        ensures
            r == quote_spec(self.state_spec(), *params, curve_amount),
    {
        if params.amount == 0 {
            return Err(ErrorCode::ValidationTooSmallTokenInAmount);
        }
        let legs = self.select_legs(&params.input_mint);
        let ratio = self.state.pool_swap_fee_ratio;
        let s = match params.swap_mode {
            SwapMode::ExactIn => swap_exact_amount_in(legs.token_in_balance, params.amount, ratio, curve_amount)?,
            SwapMode::ExactOut => swap_exact_amount_out(legs.token_out_balance, params.amount, ratio, curve_amount)?,
        };
        if s.out_amount == 0 {
            return Err(ErrorCode::ValidationTooSmallTokenOutAmount);
        }
        Ok(Quote {
            in_amount: s.in_amount,
            out_amount: s.out_amount,
            fee_amount: s.fee_amount,
            fee_mint: params.input_mint,
            fee_ratio: ratio,
            not_enough_liquidity: s.not_enough_liquidity,
        })
    }
}

} // verus!
