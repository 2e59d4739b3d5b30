//! Fee percentages expressed in parts per million.

use vstd::prelude::*;

verus! {

/// 100% in parts per million.
pub const MAX_PERCENTAGE: u64 = 1_000_000;

/// `ceil(a * n / d)` over the integers.
pub open spec fn spec_ceil_div(a: int, n: int, d: int) -> int {
    (a * n + d - 1) / d
}

/// Ceiling division of `token_amount * fee_numerator` by `fee_denominator`.
/// Fails when the denominator is zero or `a * n + d - 1` leaves `u128`.
pub fn ceil_div(token_amount: u128, fee_numerator: u128, fee_denominator: u128) -> (r: Option<
    u128,
>)
    ensures
        r is Some <==> (fee_denominator > 0 && token_amount * fee_numerator + fee_denominator - 1
            <= u128::MAX),
        r matches Some(v) ==> v == spec_ceil_div(
            token_amount as int,
            fee_numerator as int,
            fee_denominator as int,
        ),
{
    if fee_denominator == 0 {
        return None;
    }
    let product = match token_amount.checked_mul(fee_numerator) {
        Some(p) => p,
        None => {
            proof {
                assert(token_amount * fee_numerator + fee_denominator - 1 > u128::MAX) by (
                nonlinear_arith)
                    requires
                        token_amount * fee_numerator > u128::MAX,
                        fee_denominator >= 1,
                ;
            }
            return None;
        },
    };
    let bumped = match product.checked_add(fee_denominator - 1) {
        Some(b) => b,
        None => return None,
    };
    Some(bumped / fee_denominator)
}

/// Floor division of `token_amount * fee_numerator` by `fee_denominator`.
/// Fails when the product leaves `u128` or the denominator is zero.
pub fn floor_div(token_amount: u128, fee_numerator: u128, fee_denominator: u128) -> (r: Option<
    u128,
>)
    ensures
        r is Some <==> (fee_denominator > 0 && token_amount * fee_numerator <= u128::MAX),
        r matches Some(v) ==> v == (token_amount * fee_numerator) / (fee_denominator as int),
{
    let product = match token_amount.checked_mul(fee_numerator) {
        Some(p) => p,
        None => return None,
    };
    if fee_denominator == 0 {
        return None;
    }
    Some(product / fee_denominator)
}

/// Trade fee on `amount`: `ceil(amount * rate / 1_000_000)`.
pub open spec fn spec_trade_fee(amount: int, trade_fee_rate: int) -> int {
    spec_ceil_div(amount, trade_fee_rate, MAX_PERCENTAGE as int)
}

/// Protocol share of a trade fee: `floor(trade_fee * rate / 1_000_000)`.
pub open spec fn spec_protocol_fee(trade_fee: int, protocol_fee_rate: int) -> int {
    (trade_fee * protocol_fee_rate) / (MAX_PERCENTAGE as int)
}

/// Whether the trade fee on `amount` can be computed in 128 bits.
pub open spec fn trade_fee_fits(amount: int, trade_fee_rate: int) -> bool {
    amount * trade_fee_rate + MAX_PERCENTAGE - 1 <= u128::MAX
}

/// Whether the protocol fee on `trade_fee` can be computed in 128 bits.
pub open spec fn protocol_fee_fits(trade_fee: int, protocol_fee_rate: int) -> bool {
    trade_fee * protocol_fee_rate <= u128::MAX
}

/// The trade fee charged on `amount`, rounded up; `None` on overflow.
pub fn get_trade_fee(amount: u128, trade_fee_rate: u64) -> (r: Option<u128>)
    ensures
        r is Some <==> trade_fee_fits(amount as int, trade_fee_rate as int),
        r matches Some(v) ==> v == spec_trade_fee(amount as int, trade_fee_rate as int),
{
    ceil_div(amount, trade_fee_rate as u128, MAX_PERCENTAGE as u128)
}

/// The protocol's share of a trade fee, rounded down; `None` on overflow.
pub fn get_protocol_fee(amount: u128, protocol_fee_rate: u64) -> (r: Option<u128>)
    ensures
        r is Some <==> protocol_fee_fits(amount as int, protocol_fee_rate as int),
        r matches Some(v) ==> v == spec_protocol_fee(amount as int, protocol_fee_rate as int),
{
    floor_div(amount, protocol_fee_rate as u128, MAX_PERCENTAGE as u128)
}

/// The trade fee never decreases as the traded amount grows.
pub proof fn lemma_trade_fee_monotonic(smaller: nat, larger: nat, trade_fee_rate: nat)
    requires
        smaller <= larger,
    ensures
        spec_trade_fee(smaller as int, trade_fee_rate as int) <= spec_trade_fee(
            larger as int,
            trade_fee_rate as int,
        ),
{
    let d = MAX_PERCENTAGE as int;
    assert(smaller * trade_fee_rate <= larger * trade_fee_rate) by (nonlinear_arith)
        requires
            smaller <= larger,
    ;
    lemma_div_monotonic(
        (smaller * trade_fee_rate) as int + d - 1,
        (larger * trade_fee_rate) as int + d - 1,
        d,
    );
}

/// The protocol's share never exceeds the trade fee it is taken from, for any
/// protocol rate of at most 100%.
pub proof fn lemma_protocol_fee_within_trade_fee(trade_fee: nat, protocol_fee_rate: nat)
    requires
        protocol_fee_rate <= MAX_PERCENTAGE,
    ensures
        0 <= spec_protocol_fee(trade_fee as int, protocol_fee_rate as int) <= trade_fee,
{
    let d = MAX_PERCENTAGE as int;
    assert(trade_fee * protocol_fee_rate <= trade_fee * d) by (nonlinear_arith)
        requires
            protocol_fee_rate <= d,
    ;
    assert((trade_fee * d) / d == trade_fee) by (nonlinear_arith)
        requires
            d > 0,
    ;
    lemma_div_monotonic(0, (trade_fee * protocol_fee_rate) as int, d);
    lemma_div_monotonic((trade_fee * protocol_fee_rate) as int, (trade_fee * d) as int, d);
}

/// Integer division by a positive constant preserves order.
pub proof fn lemma_div_monotonic(x: int, y: int, d: int)
    requires
        x <= y,
        d > 0,
    ensures
        x / d <= y / d,
{
    vstd::arithmetic::div_mod::lemma_div_is_ordered(x, y, d);
}

} // verus!
