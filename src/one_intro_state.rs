//! Snapshot of a pool's account: its legs, weights and fee ratio.
use vstd::prelude::*;
use vstd::bytes::{spec_u64_from_le_bytes, u64_from_le_bytes};
use vstd::slice::slice_subrange;
use crate::one_intro_calc::ErrorCode;

verus! {

/// Number of leg slots in a pool.
pub const MAX_TOKEN_COUNT: usize = 4;

/// A 32-byte account identity.
#[derive(Clone, Copy, Debug)]
pub struct AccountKey {
    pub bytes: [u8; 32],
}

impl AccountKey {
    /// Whether every byte of the key is zero (the placeholder of an unused leg).
    pub open spec fn is_null_spec(&self) -> bool {
        forall|i: int| 0 <= i < 32 ==> self.bytes@[i] == 0u8
    }

    /// Byte-wise equality of two keys.
    pub fn same_as(&self, other: &AccountKey) -> (r: bool)
        ensures
            r == (self.bytes@ == other.bytes@),
    {
        let mut i: usize = 0;
        while i < 32
            invariant
                0 <= i <= 32,
                self.bytes@.len() == 32,
                other.bytes@.len() == 32,
                forall|j: int| 0 <= j < i ==> self.bytes@[j] == other.bytes@[j],
            decreases 32 - i,
        {
            if self.bytes[i] != other.bytes[i] {
                return false;
            }
            i = i + 1;
        }
        assert(self.bytes@ =~= other.bytes@);
        true
    }

    /// Whether this is the all-zero placeholder key.
    pub fn is_null(&self) -> (r: bool)
        ensures
            r == self.is_null_spec(),
    {
        let mut i: usize = 0;
        while i < 32
            invariant
                0 <= i <= 32,
                self.bytes@.len() == 32,
                forall|j: int| 0 <= j < i ==> self.bytes@[j] == 0u8,
            decreases 32 - i,
        {
            if self.bytes[i] != 0 {
                return false;
            }
            i = i + 1;
        }
        true
    }
}

/// One leg of the pool.
#[derive(Clone, Copy, Debug)]
pub struct TokenRecord {
    pub mint_key: AccountKey,
    pub account_key: AccountKey,
    pub balance: u64,
    pub weight: u64,
}

/// A pool's state as stored on chain.
#[derive(Clone, Copy, Debug)]
pub struct PoolState {
    pub pool_auth_pda_key: AccountKey,
    pub pool_auth_pda_bump: u8,
    pub pool_lp_mint_key: AccountKey,
    pub pool_lp_virtual_supply: u64,
    pub pool_token_count: u64,
    pub pool_token_array: [TokenRecord; 4],
    pub pool_token_total_weight: u64,
    pub pool_swap_fee_ratio: u64,
}

/// Bytes of account data a pool state occupies: an 8-byte account
/// discriminator followed by the little-endian packed fields.
pub const STATE_DATA_LEN: usize = 425;

/// The little-endian `u64` stored at `off`.
pub open spec fn u64_at(data: Seq<u8>, off: int) -> u64 {
    spec_u64_from_le_bytes(data.subrange(off, off + 8))
}

/// The 32-byte key stored at `off`.
pub open spec fn key_at(data: Seq<u8>, off: int) -> Seq<u8> {
    data.subrange(off, off + 32)
}

/// `t` is the token record stored at `off`: mint, custody account, balance, weight.
pub open spec fn record_decoded(t: TokenRecord, data: Seq<u8>, off: int) -> bool {
    &&& t.mint_key.bytes@ == key_at(data, off)
    &&& t.account_key.bytes@ == key_at(data, off + 32)
    &&& t.balance == u64_at(data, off + 64)
    &&& t.weight == u64_at(data, off + 72)
}

/// `s` is the pool state stored in the account data `data`.
pub open spec fn state_decoded(s: PoolState, data: Seq<u8>) -> bool {
    &&& s.pool_auth_pda_key.bytes@ == key_at(data, 8)
    &&& s.pool_auth_pda_bump == data[40]
    &&& s.pool_lp_mint_key.bytes@ == key_at(data, 41)
    &&& s.pool_lp_virtual_supply == u64_at(data, 73)
    &&& s.pool_token_count == u64_at(data, 81)
    &&& forall|i: int| 0 <= i < 4 ==> record_decoded(#[trigger] s.pool_token_array@[i], data, 89 + 80 * i)
    &&& s.pool_token_total_weight == u64_at(data, 409)
    &&& s.pool_swap_fee_ratio == u64_at(data, 417)
}

fn read_u64(data: &[u8], off: usize) -> (r: u64)
    requires
        off + 8 <= data@.len(),
    ensures
        r == u64_at(data@, off as int),
{
    let _len = data.len();
    let s = slice_subrange(data, off, off + 8);
    u64_from_le_bytes(s)
}

fn read_key(data: &[u8], off: usize) -> (r: AccountKey)
    requires
        off + 32 <= data@.len(),
    ensures
        r.bytes@ == key_at(data@, off as int),
{
    let _len = data.len();
    let mut bytes: [u8; 32] = [0u8; 32];
    let mut i: usize = 0;
    while i < 32
        invariant
            0 <= i <= 32,
            off + 32 <= data@.len(),
            data@.len() <= usize::MAX,
            bytes@.len() == 32,
            forall|j: int| 0 <= j < i ==> bytes@[j] == data@[off + j],
        decreases 32 - i,
    {
        bytes[i] = data[off + i];
        i = i + 1;
    }
    assert(bytes@ =~= key_at(data@, off as int));
    AccountKey { bytes }
}

fn read_record(data: &[u8], off: usize) -> (r: TokenRecord)
    requires
        off + 80 <= data@.len(),
    ensures
        record_decoded(r, data@, off as int),
{
    let _len = data.len();
    TokenRecord {
        mint_key: read_key(data, off),
        account_key: read_key(data, off + 32),
        balance: read_u64(data, off + 64),
        weight: read_u64(data, off + 72),
    }
}

/// Decodes a pool state from its account data; data shorter than
/// `STATE_DATA_LEN` is refused, and bytes past it are ignored.
pub fn decode_pool_state(data: &[u8]) -> (r: Result<PoolState, ErrorCode>)
    ensures
        r.is_ok() <==> data@.len() >= STATE_DATA_LEN,
        r matches Ok(s) ==> state_decoded(s, data@),
        r matches Err(e) ==> e == ErrorCode::AccountDataTooShort,
{
    if data.len() < STATE_DATA_LEN {
        return Err(ErrorCode::AccountDataTooShort);
    }
    let tokens: [TokenRecord; 4] = [
        read_record(data, 89),
        read_record(data, 169),
        read_record(data, 249),
        read_record(data, 329),
    ];
    let s = PoolState {
        pool_auth_pda_key: read_key(data, 8),
        pool_auth_pda_bump: data[40],
        pool_lp_mint_key: read_key(data, 41),
        pool_lp_virtual_supply: read_u64(data, 73),
        pool_token_count: read_u64(data, 81),
        pool_token_array: tokens,
        pool_token_total_weight: read_u64(data, 409),
        pool_swap_fee_ratio: read_u64(data, 417),
    };
    assert forall|i: int| 0 <= i < 4 implies record_decoded(#[trigger] s.pool_token_array@[i], data@, 89 + 80 * i) by {
        assert(i == 0 || i == 1 || i == 2 || i == 3);
    }
    Ok(s)
}

} // verus!
