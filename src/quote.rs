//! Pricing a swap against the liquidity that is free to trade.

use vstd::prelude::*;
use crate::error::AmmError;
use crate::state::{AmmConfig, Pool};
use crate::swap_math::{
    rebalance_pool_ratio, spec_rebalance, spec_swap, swap, RebalanceResult,
    SwapResultWithFromToLock,
};

verus! {

/// The pool's balances cover what it owes and has reserved, on both sides.
pub open spec fn balances_wf(pool: Pool, reserve_x: u64, reserve_y: u64) -> bool {
    &&& reserve_x >= pool.protocol_fee_x + pool.user_locked_x + pool.locked_x
    &&& reserve_y >= pool.protocol_fee_y + pool.user_locked_y + pool.locked_y
}

/// Balance not owed elsewhere: reserve minus protocol fees and owed output.
pub open spec fn total_available(reserve: int, protocol_fee: int, user_locked: int) -> int {
    reserve - protocol_fee - user_locked
}

/// Balance free to trade: the total available minus what open orders reserve.
pub open spec fn free_available(reserve: int, protocol_fee: int, user_locked: int, locked: int) -> int {
    total_available(reserve, protocol_fee, user_locked) - locked
}

/// Free source balance of a swap in the given direction.
pub open spec fn source_free(pool: Pool, is_swap_x_to_y: bool, reserve_x: u64, reserve_y: u64) -> int {
    if is_swap_x_to_y {
        free_available(reserve_x as int, pool.protocol_fee_x as int, pool.user_locked_x as int, pool.locked_x as int)
    } else {
        free_available(reserve_y as int, pool.protocol_fee_y as int, pool.user_locked_y as int, pool.locked_y as int)
    }
}

/// Free destination balance of a swap in the given direction.
pub open spec fn destination_free(pool: Pool, is_swap_x_to_y: bool, reserve_x: u64, reserve_y: u64) -> int {
    source_free(pool, !is_swap_x_to_y, reserve_x, reserve_y)
}

/// Total available source balance of a swap in the given direction.
pub open spec fn source_total(pool: Pool, is_swap_x_to_y: bool, reserve_x: u64, reserve_y: u64) -> int {
    if is_swap_x_to_y {
        total_available(reserve_x as int, pool.protocol_fee_x as int, pool.user_locked_x as int)
    } else {
        total_available(reserve_y as int, pool.protocol_fee_y as int, pool.user_locked_y as int)
    }
}

/// Total available destination balance of a swap in the given direction.
pub open spec fn destination_total(pool: Pool, is_swap_x_to_y: bool, reserve_x: u64, reserve_y: u64) -> int {
    source_total(pool, !is_swap_x_to_y, reserve_x, reserve_y)
}

/// What `quote` returns: the constant-product swap on the free balances, the
/// lock chosen by the rebalancing search against the total balances, and the
/// failures of each step.
pub open spec fn spec_quote(
    exchange_in: int,
    is_swap_x_to_y: bool,
    config: AmmConfig,
    pool: Pool,
    reserve_x: u64,
    reserve_y: u64,
) -> Result<SwapResultWithFromToLock, AmmError> {
    let src = source_free(pool, is_swap_x_to_y, reserve_x, reserve_y);
    let dst = destination_free(pool, is_swap_x_to_y, reserve_x, reserve_y);
    match spec_swap(exchange_in, src, dst, config.trade_fee_rate as int, config.protocol_fee_rate as int) {
        None => Err(AmmError::MathOverflow),
        Some(s) => {
            let rb = spec_rebalance(
                s.to_amount as int,
                src,
                dst,
                source_total(pool, is_swap_x_to_y, reserve_x, reserve_y),
                destination_total(pool, is_swap_x_to_y, reserve_x, reserve_y),
                config.ratio_change_tolerance_rate as int,
            );
            if rb.is_rate_tolerance_exceeded {
                Err(AmmError::TradeTooLarge)
            } else if rb.from_to_lock >= src {
                Err(AmmError::InsufficientReserve)
            } else {
                Ok(
                    SwapResultWithFromToLock {
                        from_amount: s.from_amount,
                        to_amount: s.to_amount,
                        trade_fee: s.trade_fee,
                        protocol_fee: s.protocol_fee,
                        from_to_lock: rb.from_to_lock,
                    },
                )
            }
        },
    }
}

/// Prices a swap of `exchange_in` (already net of the input transfer fee) in
/// the given direction, and the source liquidity to lock against price drift
/// until the order is finalized.
pub fn quote(
    exchange_in: u64,
    is_swap_x_to_y: bool,
    config: &AmmConfig,
    pool: &Pool,
    reserve_x: u64,
    reserve_y: u64,
) -> (r: Result<SwapResultWithFromToLock, AmmError>)
    requires
        balances_wf(*pool, reserve_x, reserve_y),
    ensures
        r == spec_quote(exchange_in as int, is_swap_x_to_y, *config, *pool, reserve_x, reserve_y),
        r matches Ok(q) ==> q.to_amount < destination_free(*pool, is_swap_x_to_y, reserve_x, reserve_y),
        r matches Ok(q) ==> q.from_to_lock < source_free(*pool, is_swap_x_to_y, reserve_x, reserve_y),
{
    let total_x: u64 = reserve_x - pool.protocol_fee_x - pool.user_locked_x;
    let total_y: u64 = reserve_y - pool.protocol_fee_y - pool.user_locked_y;
    let free_x: u64 = total_x - pool.locked_x;
    let free_y: u64 = total_y - pool.locked_y;
    let (src_total, dst_total, src, dst) = if is_swap_x_to_y {
        (total_x, total_y, free_x, free_y)
    } else {
        (total_y, total_x, free_y, free_x)
    };
    let s = match swap(
        exchange_in as u128,
        src as u128,
        dst as u128,
        config.trade_fee_rate,
        config.protocol_fee_rate,
    ) {
        Some(s) => s,
        None => return Err(AmmError::MathOverflow),
    };
    let rb: RebalanceResult = match rebalance_pool_ratio(
        s.to_amount,
        src,
        dst,
        src_total,
        dst_total,
        config.ratio_change_tolerance_rate,
    ) {
        Some(rb) => rb,
        None => return Err(AmmError::MathOverflow),
    };
    if rb.is_rate_tolerance_exceeded {
        return Err(AmmError::TradeTooLarge);
    }
    if rb.from_to_lock >= src {
        return Err(AmmError::InsufficientReserve);
    }
    Ok(
        SwapResultWithFromToLock {
            from_amount: s.from_amount,
            to_amount: s.to_amount,
            trade_fee: s.trade_fee,
            protocol_fee: s.protocol_fee,
            from_to_lock: rb.from_to_lock,
        },
    )
}

} // verus!
