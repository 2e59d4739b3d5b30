//! Account records as the ledger stores them: an 8-byte type discriminator
//! followed by the Borsh encoding of the fields (integers little-endian,
//! flags as one byte, fixed arrays in order).

use vstd::prelude::*;
use crate::encoding::{le_nat, lemma_le_nat_bound, pow256};
use crate::error::AmmError;
use crate::state::{Address, AmmConfig, Order, Pool};

verus! {

/// The 32 bytes at `data[at..at + 32]`.
fn address_at(data: &[u8], at: usize) -> (r: Address)
    requires
        at + 32 <= data@.len(),
    ensures
        r@ == data@.subrange(at as int, at + 32),
{
    let len = data.len();
    let mut out = [0u8; 32];
    let mut k: usize = 0;
    while k < 32
        invariant
            k <= 32,
            at + 32 <= data@.len() == len,
            forall|j: int| 0 <= j < k ==> out@[j] == data@[at + j],
        decreases 32 - k,
    {
        out[k] = data[at + k];
        k = k + 1;
    }
    assert(out@ =~= data@.subrange(at as int, at + 32));
    out
}

/// The little-endian 64-bit number at `data[at..at + 8]`.
pub(crate) fn u64_at(data: &[u8], at: usize) -> (r: u64)
    requires
        at + 8 <= data@.len(),
    ensures
        r == le_nat(data@.subrange(at as int, at + 8)),
{
    let len = data.len();
    let ghost d = data@.subrange(at as int, at + 8);
    let mut acc: u64 = 0;
    let mut i: usize = 8;
    proof {
        assert(d.subrange(8, 8) =~= Seq::<u8>::empty());
    }
    while i > 0
        invariant
            i <= 8,
            at + 8 <= data@.len() == len,
            d == data@.subrange(at as int, at + 8),
            acc == le_nat(d.subrange(i as int, 8)),
        decreases i,
    {
        let ghost tail = d.subrange(i as int, 8);
        i = i - 1;
        let ghost s = d.subrange(i as int, 8);
        proof {
            assert(s.subrange(1, s.len() as int) =~= tail);
            lemma_le_nat_bound(tail);
            reveal_with_fuel(pow256, 8);
            crate::encoding::lemma_pow256_monotonic((8 - i - 1) as nat, 7);
        }
        acc = data[at + i] as u64 + 256 * acc;
    }
    assert(d.subrange(0, 8) =~= d);
    acc
}

/// `N` little-endian 64-bit numbers starting at `data[at]`.
fn u64s_at<const N: usize>(data: &[u8], at: usize) -> (r: [u64; N])
    requires
        at + 8 * N <= data@.len(),
    ensures
        forall|i: int| 0 <= i < N ==> #[trigger] r@[i] == le_nat(data@.subrange(at + 8 * i, at + 8 * i + 8)),
{
    let len = data.len();
    let mut out = [0u64; N];
    let mut k: usize = 0;
    while k < N
        invariant
            k <= N,
            at + 8 * N <= data@.len() == len,
            forall|j: int| 0 <= j < k ==> #[trigger] out@[j] == le_nat(data@.subrange(at + 8 * j, at + 8 * j + 8)),
        decreases N - k,
    {
        out[k] = u64_at(data, at + 8 * k);
        k = k + 1;
    }
    out
}

/// Bytes of a pool account: an 8-byte discriminator and the Borsh fields.
pub const POOL_ACCOUNT_LEN: usize = 289;

/// Whether `d` is long enough.
pub open spec fn pool_bytes_ok(d: Seq<u8>) -> bool {
    d.len() >= POOL_ACCOUNT_LEN
}

/// `v` is what the account bytes `d` hold.
pub open spec fn pool_decodes(v: Pool, d: Seq<u8>) -> bool {
        &&& v.creator@ == d.subrange(8, 40)
        &&& v.amm_config@ == d.subrange(40, 72)
        &&& v.token_mint_x@ == d.subrange(72, 104)
        &&& v.token_mint_y@ == d.subrange(104, 136)
        &&& v.reserve_x@ == d.subrange(136, 168)
        &&& v.reserve_y@ == d.subrange(168, 200)
        &&& v.token_lp_supply == le_nat(d.subrange(200, 208))
        &&& v.protocol_fee_x == le_nat(d.subrange(208, 216))
        &&& v.protocol_fee_y == le_nat(d.subrange(216, 224))
        &&& v.locked_x == le_nat(d.subrange(224, 232))
        &&& v.locked_y == le_nat(d.subrange(232, 240))
        &&& v.user_locked_x == le_nat(d.subrange(240, 248))
        &&& v.user_locked_y == le_nat(d.subrange(248, 256))
        &&& v.bump == d[256]
        &&& forall|i: int| 0 <= i < 4 ==> #[trigger] v.padding@[i] == le_nat(d.subrange(257 + 8 * i, 257 + 8 * i + 8))
}

/// Decodes a pool account; fails with `InvalidAccountData` when the bytes are
/// too few.
pub fn parse_pool(data: &[u8]) -> (r: Result<Pool, AmmError>)
    ensures
        r is Ok <==> pool_bytes_ok(data@),
        r matches Err(e) ==> e == AmmError::InvalidAccountData,
        r matches Ok(v) ==> pool_decodes(v, data@),
{
    if data.len() < POOL_ACCOUNT_LEN {
        return Err(AmmError::InvalidAccountData);
    }
    let creator = address_at(data, 8);
    let amm_config = address_at(data, 40);
    let token_mint_x = address_at(data, 72);
    let token_mint_y = address_at(data, 104);
    let reserve_x = address_at(data, 136);
    let reserve_y = address_at(data, 168);
    let token_lp_supply = u64_at(data, 200);
    let protocol_fee_x = u64_at(data, 208);
    let protocol_fee_y = u64_at(data, 216);
    let locked_x = u64_at(data, 224);
    let locked_y = u64_at(data, 232);
    let user_locked_x = u64_at(data, 240);
    let user_locked_y = u64_at(data, 248);
    let bump = data[256];
    let padding = u64s_at::<4>(data, 257);
    Ok(Pool { creator, amm_config, token_mint_x, token_mint_y, reserve_x, reserve_y, token_lp_supply, protocol_fee_x, protocol_fee_y, locked_x, locked_y, user_locked_x, user_locked_y, bump, padding })
}

/// Bytes of an order account: an 8-byte discriminator and the Borsh fields.
pub const ORDER_ACCOUNT_LEN: usize = 242;

/// Whether `d` is long enough and its flags are 0 or 1.
pub open spec fn order_bytes_ok(d: Seq<u8>) -> bool {
    d.len() >= ORDER_ACCOUNT_LEN && d[208] <= 1
}

/// `v` is what the account bytes `d` hold.
pub open spec fn order_decodes(v: Order, d: Seq<u8>) -> bool {
        &&& v.trader@ == d.subrange(8, 40)
        &&& v.token_mint_x@ == d.subrange(40, 72)
        &&& v.token_mint_y@ == d.subrange(72, 104)
        &&& v.actual_in == le_nat(d.subrange(104, 112))
        &&& v.exchange_in == le_nat(d.subrange(112, 120))
        &&& v.actual_out == le_nat(d.subrange(120, 128))
        &&& v.from_to_lock == le_nat(d.subrange(128, 136))
        &&& v.d_in == le_nat(d.subrange(136, 144))
        &&& v.d_out == le_nat(d.subrange(144, 152))
        &&& v.deadline == le_nat(d.subrange(152, 160))
        &&& v.protocol_fee == le_nat(d.subrange(160, 168))
        &&& v.wsol_deposit == le_nat(d.subrange(168, 176))
        &&& v.c_min@ == d.subrange(176, 208)
        &&& v.is_x_to_y == (d[208] == 1)
        &&& v.bump == d[209]
        &&& forall|i: int| 0 <= i < 4 ==> #[trigger] v.padding@[i] == le_nat(d.subrange(210 + 8 * i, 210 + 8 * i + 8))
}

/// Decodes an order account; fails with `InvalidAccountData` when the bytes are
/// too few or a flag is neither 0 nor 1.
pub fn parse_order(data: &[u8]) -> (r: Result<Order, AmmError>)
    ensures
        r is Ok <==> order_bytes_ok(data@),
        r matches Err(e) ==> e == AmmError::InvalidAccountData,
        r matches Ok(v) ==> order_decodes(v, data@),
{
    if data.len() < ORDER_ACCOUNT_LEN {
        return Err(AmmError::InvalidAccountData);
    }
    if data[208] > 1 {
        return Err(AmmError::InvalidAccountData);
    }
    let trader = address_at(data, 8);
    let token_mint_x = address_at(data, 40);
    let token_mint_y = address_at(data, 72);
    let actual_in = u64_at(data, 104);
    let exchange_in = u64_at(data, 112);
    let actual_out = u64_at(data, 120);
    let from_to_lock = u64_at(data, 128);
    let d_in = u64_at(data, 136);
    let d_out = u64_at(data, 144);
    let deadline = u64_at(data, 152);
    let protocol_fee = u64_at(data, 160);
    let wsol_deposit = u64_at(data, 168);
    let c_min = address_at(data, 176);
    let is_x_to_y = data[208] == 1;
    let bump = data[209];
    let padding = u64s_at::<4>(data, 210);
    Ok(Order { trader, token_mint_x, token_mint_y, actual_in, exchange_in, actual_out, from_to_lock, d_in, d_out, deadline, protocol_fee, wsol_deposit, c_min, is_x_to_y, bump, padding })
}

/// Bytes of the exchange configuration account: an 8-byte discriminator and the Borsh fields.
pub const AMM_CONFIG_ACCOUNT_LEN: usize = 186;

/// Whether `d` is long enough and its flags are 0 or 1.
pub open spec fn amm_config_bytes_ok(d: Seq<u8>) -> bool {
    d.len() >= AMM_CONFIG_ACCOUNT_LEN && d[57] <= 1
}

/// `v` is what the account bytes `d` hold.
pub open spec fn amm_config_decodes(v: AmmConfig, d: Seq<u8>) -> bool {
        &&& v.trade_fee_rate == le_nat(d.subrange(8, 16))
        &&& v.create_pool_fee == le_nat(d.subrange(16, 24))
        &&& v.protocol_fee_rate == le_nat(d.subrange(24, 32))
        &&& v.wsol_trade_deposit == le_nat(d.subrange(32, 40))
        &&& v.deadline_slot_duration == le_nat(d.subrange(40, 48))
        &&& v.ratio_change_tolerance_rate == le_nat(d.subrange(48, 56))
        &&& v.bump == d[56]
        &&& v.halted == (d[57] == 1)
        &&& forall|i: int| 0 <= i < 16 ==> #[trigger] v.padding@[i] == le_nat(d.subrange(58 + 8 * i, 58 + 8 * i + 8))
}

/// Decodes the exchange configuration account; fails with `InvalidAccountData` when the bytes are
/// too few or a flag is neither 0 nor 1.
pub fn parse_amm_config(data: &[u8]) -> (r: Result<AmmConfig, AmmError>)
    ensures
        r is Ok <==> amm_config_bytes_ok(data@),
        r matches Err(e) ==> e == AmmError::InvalidAccountData,
        r matches Ok(v) ==> amm_config_decodes(v, data@),
{
    if data.len() < AMM_CONFIG_ACCOUNT_LEN {
        return Err(AmmError::InvalidAccountData);
    }
    if data[57] > 1 {
        return Err(AmmError::InvalidAccountData);
    }
    let trade_fee_rate = u64_at(data, 8);
    let create_pool_fee = u64_at(data, 16);
    let protocol_fee_rate = u64_at(data, 24);
    let wsol_trade_deposit = u64_at(data, 32);
    let deadline_slot_duration = u64_at(data, 40);
    let ratio_change_tolerance_rate = u64_at(data, 48);
    let bump = data[56];
    let halted = data[57] == 1;
    let padding = u64s_at::<16>(data, 58);
    Ok(AmmConfig { trade_fee_rate, create_pool_fee, protocol_fee_rate, wsol_trade_deposit, deadline_slot_duration, ratio_change_tolerance_rate, bump, halted, padding })
}

} // verus!
