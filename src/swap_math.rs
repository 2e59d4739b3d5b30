//! Constant-product pricing and the pool-ratio rebalancing search.

use vstd::prelude::*;
use crate::fee_math::{
    get_protocol_fee, get_trade_fee, protocol_fee_fits, spec_protocol_fee, spec_trade_fee,
    trade_fee_fits, MAX_PERCENTAGE,
};
use crate::wide::{lemma_u64_product_fits, mul_wide, wide_gt, wide_value};

verus! {

/// Amounts of one priced swap.
#[derive(Clone, Copy, Debug, PartialEq, Eq, Structural)]
pub struct SwapResult {
    /// Source amount that enters the curve, after the trade fee.
    pub from_amount: u64,
    /// Destination amount that leaves the pool.
    pub to_amount: u64,
    pub trade_fee: u64,
    pub protocol_fee: u64,
}

/// A priced swap together with the source liquidity it reserves.
#[derive(Clone, Copy, Debug, PartialEq, Eq, Structural)]
pub struct SwapResultWithFromToLock {
    pub from_amount: u64,
    pub to_amount: u64,
    pub trade_fee: u64,
    pub protocol_fee: u64,
    pub from_to_lock: u64,
}

/// Outcome of the rebalancing search.
#[derive(Clone, Copy, Debug, PartialEq, Eq, Structural)]
pub struct RebalanceResult {
    pub from_to_lock: u64,
    pub is_rate_tolerance_exceeded: bool,
}

/// Constant-product output `floor(dx * y / (x + dx))`.
pub open spec fn spec_constant_product_out(source: int, pool_source: int, pool_destination: int) -> int {
    (source * pool_destination) / (pool_source + source)
}

/// Output of the constant-product curve `(x + dx)(y - dy) = xy` for input `dx`,
/// rounded down.
pub fn swap_base_input_without_fees(
    source_amount: u128,
    swap_source_amount: u128,
    swap_destination_amount: u128,
) -> (r: u128)
    requires
        source_amount * swap_destination_amount <= u128::MAX,
        0 < swap_source_amount + source_amount <= u128::MAX,
    ensures
        r == spec_constant_product_out(
            source_amount as int,
            swap_source_amount as int,
            swap_destination_amount as int,
        ),
{
    let numerator = source_amount * swap_destination_amount;
    let denominator = swap_source_amount + source_amount;
    numerator / denominator
}

/// The priced swap of `source` against the given pool balances, or `None` when
/// a step overflows, the fee exceeds the input, the curve is empty, or an
/// amount does not fit in 64 bits.
pub open spec fn spec_swap(
    source: int,
    pool_source: int,
    pool_destination: int,
    trade_fee_rate: int,
    protocol_fee_rate: int,
) -> Option<SwapResult> {
    let trade_fee = spec_trade_fee(source, trade_fee_rate);
    let protocol_fee = spec_protocol_fee(trade_fee, protocol_fee_rate);
    let post_fee = source - trade_fee;
    if !trade_fee_fits(source, trade_fee_rate) || !protocol_fee_fits(trade_fee, protocol_fee_rate)
        || post_fee < 0 || post_fee * pool_destination > u128::MAX || pool_source + post_fee
        > u128::MAX || pool_source + post_fee == 0 {
        None
    } else {
        let to_amount = spec_constant_product_out(post_fee, pool_source, pool_destination);
        if post_fee > u64::MAX || to_amount > u64::MAX || trade_fee > u64::MAX || protocol_fee
            > u64::MAX {
            None
        } else {
            Some(
                SwapResult {
                    from_amount: post_fee as u64,
                    to_amount: to_amount as u64,
                    trade_fee: trade_fee as u64,
                    protocol_fee: protocol_fee as u64,
                },
            )
        }
    }
}

/// Prices a swap of `source_amount`: takes the trade fee (and its protocol
/// share) from the input, then runs the rest through the constant-product curve.
pub fn swap(
    source_amount: u128,
    pool_source_amount: u128,
    pool_destination_amount: u128,
    trade_fee_rate: u64,
    protocol_fee_rate: u64,
) -> (r: Option<SwapResult>)
    ensures
        r == spec_swap(
            source_amount as int,
            pool_source_amount as int,
            pool_destination_amount as int,
            trade_fee_rate as int,
            protocol_fee_rate as int,
        ),
{
    let trade_fee = match get_trade_fee(source_amount, trade_fee_rate) {
        Some(f) => f,
        None => return None,
    };
    let protocol_fee = match get_protocol_fee(trade_fee, protocol_fee_rate) {
        Some(f) => f,
        None => return None,
    };
    if trade_fee > source_amount {
        return None;
    }
    let post_fee = source_amount - trade_fee;
    let product = match post_fee.checked_mul(pool_destination_amount) {
        Some(p) => p,
        None => return None,
    };
    let denominator = match pool_source_amount.checked_add(post_fee) {
        Some(d) => d,
        None => return None,
    };
    if denominator == 0 {
        return None;
    }
    let to_amount = swap_base_input_without_fees(post_fee, pool_source_amount, pool_destination_amount);
    if post_fee > u64::MAX as u128 || to_amount > u64::MAX as u128 || trade_fee > u64::MAX as u128
        || protocol_fee > u64::MAX as u128 {
        return None;
    }
    Some(
        SwapResult {
            from_amount: post_fee as u64,
            to_amount: to_amount as u64,
            trade_fee: trade_fee as u64,
            protocol_fee: protocol_fee as u64,
        },
    )
}

/// With no trade fee, the swap is the bare constant-product formula on the
/// whole input.
pub proof fn lemma_zero_fee_swap(
    source: nat,
    pool_source: nat,
    pool_destination: nat,
    protocol_fee_rate: nat,
)
    requires
        spec_swap(source as int, pool_source as int, pool_destination as int, 0, protocol_fee_rate as int) is Some,
    ensures
        spec_swap(source as int, pool_source as int, pool_destination as int, 0, protocol_fee_rate as int)->0
            == (SwapResult {
            from_amount: source as u64,
            to_amount: ((source * pool_destination) / (pool_source + source)) as u64,
            trade_fee: 0,
            protocol_fee: 0,
        }),
{
    assert(source * 0 == 0);
    assert(spec_trade_fee(source as int, 0) == 0);
    assert(spec_protocol_fee(0, protocol_fee_rate as int) == 0);
}

/// With a non-empty source side, a swap never pays out the whole destination
/// balance.
pub proof fn lemma_swap_keeps_destination(
    source: nat,
    pool_source: nat,
    pool_destination: nat,
    trade_fee_rate: nat,
    protocol_fee_rate: nat,
)
    requires
        pool_source > 0,
        pool_destination > 0,
        spec_swap(source as int, pool_source as int, pool_destination as int, trade_fee_rate as int, protocol_fee_rate as int) is Some,
    ensures
        spec_swap(source as int, pool_source as int, pool_destination as int, trade_fee_rate as int, protocol_fee_rate as int)->0.to_amount
            < pool_destination,
{
    let post_fee = source - spec_trade_fee(source as int, trade_fee_rate as int);
    let d = pool_source + post_fee;
    assert(post_fee * pool_destination < d * pool_destination) by (nonlinear_arith)
        requires
            post_fee < d,
            pool_destination > 0,
    ;
    vstd::arithmetic::div_mod::lemma_div_by_multiple_is_strongly_ordered(
        post_fee * pool_destination,
        d * pool_destination,
        pool_destination as int,
        d as int,
    );
    assert((d * pool_destination) / d == pool_destination) by (nonlinear_arith)
        requires
            d > 0,
    ;
}


/// `|a - b|` over the integers.
pub open spec fn abs_diff(a: int, b: int) -> int {
    if a >= b {
        a - b
    } else {
        b - a
    }
}

/// Distance between the ratio left after locking `lock` source units and the
/// original ratio, scaled by `remaining_destination * original_destination`:
/// `|(source - lock) / remaining - orig_source / orig_dest|` times that scale.
pub open spec fn ratio_gap(
    source: int,
    lock: int,
    remaining_destination: int,
    original_source: int,
    original_destination: int,
) -> int {
    abs_diff((source - lock) * original_destination, original_source * remaining_destination)
}

/// The cases the search does not run on: the swap would take the whole
/// destination, a side is empty, or the original ratio is undefined.
pub open spec fn rebalance_degenerate(
    to_amount_swapped: int,
    current_source: int,
    current_destination: int,
    original_destination: int,
) -> bool {
    to_amount_swapped >= current_destination || current_source == 0 || current_destination == 0
        || original_destination == 0
}

/// `source * orig_dest - remaining * orig_source`: the exact lock that restores
/// the original ratio, times `orig_dest`.
pub open spec fn exact_lock_scaled(
    source: int,
    remaining_destination: int,
    original_source: int,
    original_destination: int,
) -> int {
    source * original_destination - remaining_destination * original_source
}

/// Smallest tested lock: one below the floor of the exact lock, at least zero.
pub open spec fn candidate_low(
    source: int,
    remaining_destination: int,
    original_source: int,
    original_destination: int,
) -> int {
    let e = exact_lock_scaled(source, remaining_destination, original_source, original_destination);
    if e < 0 {
        0
    } else if e / original_destination >= 1 {
        e / original_destination - 1
    } else {
        0
    }
}

/// Largest tested lock: one above the floor of the exact lock, at most `source`.
pub open spec fn candidate_high(
    source: int,
    remaining_destination: int,
    original_source: int,
    original_destination: int,
) -> int {
    let e = exact_lock_scaled(source, remaining_destination, original_source, original_destination);
    if e < 0 {
        0
    } else if e / original_destination + 1 <= source {
        e / original_destination + 1
    } else {
        source
    }
}

/// A tested lock: within the window around the exact lock, and leaving some
/// source balance.
pub open spec fn is_candidate(
    lock: int,
    source: int,
    remaining_destination: int,
    original_source: int,
    original_destination: int,
) -> bool {
    candidate_low(source, remaining_destination, original_source, original_destination) <= lock
        <= candidate_high(source, remaining_destination, original_source, original_destination)
        && lock < source
}

/// Whether the relative ratio change `gap / (remaining * orig_source)` is above
/// `tolerance_rate / 1_000_000`.
pub open spec fn exceeds_tolerance(
    gap: int,
    remaining_destination: int,
    original_source: int,
    tolerance_rate: int,
) -> bool {
    gap * MAX_PERCENTAGE > tolerance_rate * (remaining_destination * original_source)
}

/// Whether `lock` is the first tested lock with the smallest ratio gap.
pub open spec fn is_best_candidate(
    lock: int,
    source: int,
    remaining_destination: int,
    original_source: int,
    original_destination: int,
) -> bool {
    &&& is_candidate(lock, source, remaining_destination, original_source, original_destination)
    &&& forall|t: int|
        is_candidate(t, source, remaining_destination, original_source, original_destination)
            ==> #[trigger] ratio_gap(source, t, remaining_destination, original_source, original_destination)
            >= ratio_gap(source, lock, remaining_destination, original_source, original_destination)
    &&& forall|t: int|
        is_candidate(t, source, remaining_destination, original_source, original_destination) && t
            < lock ==> #[trigger] ratio_gap(source, t, remaining_destination, original_source, original_destination)
            > ratio_gap(source, lock, remaining_destination, original_source, original_destination)
}

/// At most one lock is the first tested lock with the smallest gap.
pub proof fn lemma_best_candidate_unique(
    a: int,
    b: int,
    source: int,
    remaining_destination: int,
    original_source: int,
    original_destination: int,
)
    requires
        is_best_candidate(a, source, remaining_destination, original_source, original_destination),
        is_best_candidate(b, source, remaining_destination, original_source, original_destination),
    ensures
        a == b,
{
    let ga = ratio_gap(source, a, remaining_destination, original_source, original_destination);
    let gb = ratio_gap(source, b, remaining_destination, original_source, original_destination);
    if a < b {
        assert(ga > gb);
        assert(ga <= gb);
    } else if b < a {
        assert(gb > ga);
        assert(gb <= ga);
    }
}

/// The lock that the rebalancing search settles on.
pub open spec fn spec_best_lock(
    source: int,
    remaining_destination: int,
    original_source: int,
    original_destination: int,
) -> int {
    choose|l: int|
        is_best_candidate(l, source, remaining_destination, original_source, original_destination)
}

/// What `rebalance_pool_ratio` returns.
pub open spec fn spec_rebalance(
    to_amount_swapped: int,
    current_source: int,
    current_destination: int,
    original_source: int,
    original_destination: int,
    tolerance_rate: int,
) -> RebalanceResult {
    if rebalance_degenerate(
        to_amount_swapped,
        current_source,
        current_destination,
        original_destination,
    ) {
        RebalanceResult { from_to_lock: 0, is_rate_tolerance_exceeded: true }
    } else {
        let remaining = current_destination - to_amount_swapped;
        let lock = spec_best_lock(current_source, remaining, original_source, original_destination);
        RebalanceResult {
            from_to_lock: lock as u64,
            is_rate_tolerance_exceeded: exceeds_tolerance(
                ratio_gap(current_source, lock, remaining, original_source, original_destination),
                remaining,
                original_source,
                tolerance_rate,
            ),
        }
    }
}

/// Ratio gap of locking `lock` units, computed in 128 bits.
fn gap_of(
    source: u64,
    lock: u64,
    remaining_destination: u64,
    original_source: u64,
    original_destination: u64,
) -> (r: u128)
    requires
        lock <= source,
    ensures
        r == ratio_gap(
            source as int,
            lock as int,
            remaining_destination as int,
            original_source as int,
            original_destination as int,
        ),
{
    let left_source: u64 = source - lock;
    proof {
        lemma_u64_product_fits(left_source, original_destination);
        lemma_u64_product_fits(original_source, remaining_destination);
    }
    let a: u128 = left_source as u128 * original_destination as u128;
    let b: u128 = original_source as u128 * remaining_destination as u128;
    if a >= b {
        a - b
    } else {
        b - a
    }
}

/// Chooses how much of the source side to lock so that, after the swap takes
/// `to_amount_swapped` from the destination, the available ratio is as close as
/// possible to the original one. The locks tested are the integers within one
/// of the exact real solution (clamped to `[0, current_source_amount]`), all
/// compared exactly; the first smallest gap wins. The result is flagged when the
/// relative change of ratio is above `ratio_change_tolerance_rate` parts per
/// million, and at once (with no lock) on the degenerate inputs.
pub fn rebalance_pool_ratio(
    to_amount_swapped: u64,
    current_source_amount: u64,
    current_destination_amount: u64,
    original_source_amount: u64,
    original_destination_amount: u64,
    ratio_change_tolerance_rate: u64,
) -> (r: Option<RebalanceResult>)
    ensures
        r == Some(
            spec_rebalance(
                to_amount_swapped as int,
                current_source_amount as int,
                current_destination_amount as int,
                original_source_amount as int,
                original_destination_amount as int,
                ratio_change_tolerance_rate as int,
            ),
        ),
        rebalance_degenerate(
            to_amount_swapped as int,
            current_source_amount as int,
            current_destination_amount as int,
            original_destination_amount as int,
        ) ==> r == Some(RebalanceResult { from_to_lock: 0, is_rate_tolerance_exceeded: true }),
        !rebalance_degenerate(
            to_amount_swapped as int,
            current_source_amount as int,
            current_destination_amount as int,
            original_destination_amount as int,
        ) ==> ({
            let remaining = current_destination_amount - to_amount_swapped;
            let lock = r->0.from_to_lock as int;
            &&& is_best_candidate(
                lock,
                current_source_amount as int,
                remaining,
                original_source_amount as int,
                original_destination_amount as int,
            )
            &&& r->0.is_rate_tolerance_exceeded == exceeds_tolerance(
                ratio_gap(
                    current_source_amount as int,
                    lock,
                    remaining,
                    original_source_amount as int,
                    original_destination_amount as int,
                ),
                remaining,
                original_source_amount as int,
                ratio_change_tolerance_rate as int,
            )
        }),
{
    if to_amount_swapped >= current_destination_amount || current_source_amount == 0
        || current_destination_amount == 0 || original_destination_amount == 0 {
        return Some(RebalanceResult { from_to_lock: 0, is_rate_tolerance_exceeded: true });
    }
    let cs = current_source_amount;
    let os = original_source_amount;
    let od = original_destination_amount;
    let remaining: u64 = current_destination_amount - to_amount_swapped;
    proof {
        lemma_u64_product_fits(cs, od);
        lemma_u64_product_fits(remaining, os);
    }
    let scaled_source: u128 = cs as u128 * od as u128;
    let scaled_target: u128 = remaining as u128 * os as u128;
    let ghost e = exact_lock_scaled(cs as int, remaining as int, os as int, od as int);
    let low: u64;
    let high: u64;
    if scaled_source < scaled_target {
        low = 0;
        high = 0;
    } else {
        let floor_exact: u128 = (scaled_source - scaled_target) / (od as u128);
        proof {
            assert(e <= cs * od);
            assert(e / (od as int) <= cs) by (nonlinear_arith)
                requires
                    0 <= e <= cs * od,
                    od > 0,
            ;
        }
        low = if floor_exact >= 1 {
            (floor_exact - 1) as u64
        } else {
            0
        };
        high = if floor_exact + 1 <= cs as u128 {
            (floor_exact + 1) as u64
        } else {
            cs
        };
    }
    assert(low as int == candidate_low(cs as int, remaining as int, os as int, od as int));
    assert(high as int == candidate_high(cs as int, remaining as int, os as int, od as int));
    assert(low < cs && low <= high <= cs && high <= low + 2);

    let mut best: u64 = low;
    let mut best_gap: u128 = gap_of(cs, low, remaining, os, od);
    let mut t: u64 = low;
    while t < high
        invariant
            low <= t <= high <= cs,
            low <= best <= t,
            best < cs,
            low as int == candidate_low(cs as int, remaining as int, os as int, od as int),
            high as int == candidate_high(cs as int, remaining as int, os as int, od as int),
            best_gap == ratio_gap(cs as int, best as int, remaining as int, os as int, od as int),
            forall|u: int|
                low <= u <= t && u < cs ==> #[trigger] ratio_gap(
                    cs as int,
                    u,
                    remaining as int,
                    os as int,
                    od as int,
                ) >= best_gap,
            forall|u: int|
                low <= u < best ==> #[trigger] ratio_gap(
                    cs as int,
                    u,
                    remaining as int,
                    os as int,
                    od as int,
                ) > best_gap,
        decreases high - t,
    {
        t = t + 1;
        if t < cs {
            let g = gap_of(cs, t, remaining, os, od);
            if g < best_gap {
                best = t;
                best_gap = g;
            }
        }
    }
    let lhs = mul_wide(best_gap, MAX_PERCENTAGE);
    proof {
        lemma_u64_product_fits(remaining, os);
    }
    let rhs = mul_wide(remaining as u128 * os as u128, ratio_change_tolerance_rate);
    let exceeded = wide_gt(lhs, rhs);
    proof {
        assert(wide_value(rhs.0, rhs.1) == ratio_change_tolerance_rate * (remaining * os)) by (
        nonlinear_arith)
            requires
                wide_value(rhs.0, rhs.1) == (remaining * os) * ratio_change_tolerance_rate,
        ;
    }
    proof {
        let c = cs as int;
        let rd = remaining as int;
        assert(is_best_candidate(best as int, c, rd, os as int, od as int));
        assert(exists|l: int| is_best_candidate(l, c, rd, os as int, od as int));
        lemma_best_candidate_unique(
            best as int,
            spec_best_lock(c, rd, os as int, od as int),
            c,
            rd,
            os as int,
            od as int,
        );
    }
    Some(RebalanceResult { from_to_lock: best, is_rate_tolerance_exceeded: exceeded })
}

} // verus!
