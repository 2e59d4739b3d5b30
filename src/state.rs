//! Ledger records of the exchange: configuration, pool and order.

use vstd::prelude::*;

verus! {

/// A 32-byte ledger address.
pub type Address = [u8; 32];

/// Exchange-wide settings. Rates are in parts per million.
#[derive(Clone, Copy, Debug)]
pub struct AmmConfig {
    pub trade_fee_rate: u64,
    /// Flat fee, in lamports, for creating a pool.
    pub create_pool_fee: u64,
    /// Share of the trade fee owed to the protocol.
    pub protocol_fee_rate: u64,
    /// Deposit taken with each trade to cover its transaction costs.
    pub wsol_trade_deposit: u64,
    /// Slots an order stays open before it can be slashed.
    pub deadline_slot_duration: u64,
    pub ratio_change_tolerance_rate: u64,
    pub bump: u8,
    /// When set, no operation may change the exchange.
    pub halted: bool,
    /// Reserved for later fields.
    pub padding: [u64; 16],
}

/// A two-sided liquidity pool.
#[derive(Clone, Copy, Debug)]
pub struct Pool {
    pub creator: Address,
    pub amm_config: Address,
    pub token_mint_x: Address,
    pub token_mint_y: Address,
    pub reserve_x: Address,
    pub reserve_y: Address,
    pub token_lp_supply: u64,
    /// Accrued fees owed to the protocol; not swappable.
    pub protocol_fee_x: u64,
    pub protocol_fee_y: u64,
    /// Liquidity reserved against open orders; not swappable.
    pub locked_x: u64,
    pub locked_y: u64,
    /// Output owed to traders of open orders.
    pub user_locked_x: u64,
    pub user_locked_y: u64,
    pub bump: u8,
    /// Reserved for later fields.
    pub padding: [u64; 4],
}

/// A pending order, created by a swap and removed by its finalize.
#[derive(Clone, Copy, Debug)]
pub struct Order {
    pub trader: Address,
    pub token_mint_x: Address,
    pub token_mint_y: Address,
    /// Amount taken from the trader.
    pub actual_in: u64,
    /// Amount the pool received, after the transfer fee.
    pub exchange_in: u64,
    /// Amount owed to the trader.
    pub actual_out: u64,
    /// Source liquidity reserved for this order.
    pub from_to_lock: u64,
    pub d_in: u64,
    pub d_out: u64,
    /// Last slot at which the order may be settled or cancelled.
    pub deadline: u64,
    pub protocol_fee: u64,
    pub wsol_deposit: u64,
    /// Commitment to the trader's minimum output.
    pub c_min: [u8; 32],
    pub is_x_to_y: bool,
    pub bump: u8,
    /// Reserved for later fields.
    pub padding: [u64; 4],
}

/// How the amount of a quote is fixed.
#[derive(Clone, Copy, Debug, PartialEq, Eq, Structural)]
pub enum SwapMode {
    ExactIn,
    ExactOut,
}

/// The ledger clock at the time of a request.
#[derive(Clone, Copy, Debug, PartialEq, Eq, Structural)]
pub struct ClockRef {
    pub slot: u64,
    pub epoch: u64,
}

/// What the pricing needs to know of the ledger.
#[derive(Clone, Copy, Debug, PartialEq, Eq, Structural)]
pub struct AmmContext {
    pub clock_ref: ClockRef,
}

/// Whether two addresses are the same.
pub fn same_address(a: &Address, b: &Address) -> (r: bool)
    ensures
        r == (a@ == b@),
{
    let mut i: usize = 0;
    while i < 32
        invariant
            i <= 32,
            forall|j: int| 0 <= j < i ==> a@[j] == b@[j],
        decreases 32 - i,
    {
        if a[i] != b[i] {
            return false;
        }
        i = i + 1;
    }
    assert(a@ =~= b@);
    true
}

} // verus!
