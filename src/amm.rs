//! A pool as the client sees it, with its balances and its mints' fee
//! settings, and the quoting of exact-input swaps against it.

use vstd::prelude::*;
use vstd::string::StringExecFns;
use crate::account::{
    amm_config_bytes_ok, amm_config_decodes, order_bytes_ok, order_decodes, parse_amm_config,
    parse_order, parse_pool, pool_bytes_ok, pool_decodes,
};
use crate::error::AmmError;
use crate::quote::{balances_wf, quote, spec_quote};
use crate::state::{same_address, Address, AmmConfig, Order, Pool, SwapMode};
use crate::transfer_fee::{fee_config_wf, get_transfer_fee, spec_transfer_fee, TransferFeeConfig};

verus! {

/// Address of the exchange program, in base58.
pub const DARKLAKE_PROGRAM_ID: &'static str = "darkr3FB87qAZmgLwKov6Hk9Yiah5UT4rUYu8Zhthw1";

/// A quote request.
#[derive(Clone, Copy, Debug)]
pub struct QuoteParams {
    pub amount: u64,
    pub input_mint: Address,
    pub output_mint: Address,
    pub swap_mode: SwapMode,
    /// Ledger epoch at which the transfer fees are taken.
    pub epoch: u64,
}

/// A priced swap, net of trade and transfer fees.
#[derive(Clone, Copy, Debug, PartialEq, Eq)]
pub struct Quote {
    /// Input that enters the curve, after the trade fee.
    pub in_amount: u64,
    /// Output the trader receives, after the output transfer fee.
    pub out_amount: u64,
    /// Trade fee taken from the input.
    pub fee_amount: u64,
    /// Mint the trade fee is taken in.
    pub fee_mint: Address,
    /// Trade fee rate in parts per million.
    pub fee_pct: u64,
}

/// Client view of one pool.
#[derive(Clone, Copy, Debug)]
pub struct DarklakeAmm {
    pub key: Address,
    pub pool: Pool,
    pub amm_config: AmmConfig,
    pub reserve_x_balance: u64,
    pub reserve_y_balance: u64,
    pub token_x_owner: Address,
    pub token_y_owner: Address,
    pub token_x_transfer_fee_config: Option<TransferFeeConfig>,
    pub token_y_transfer_fee_config: Option<TransferFeeConfig>,
}

/// What `DarklakeAmm::quote` returns.
pub open spec fn spec_amm_quote(amm: DarklakeAmm, params: QuoteParams) -> Result<Quote, AmmError> {
    let x_to_y = params.input_mint@ == amm.pool.token_mint_x@;
    let (in_fees, out_fees) = if x_to_y {
        (amm.token_x_transfer_fee_config, amm.token_y_transfer_fee_config)
    } else {
        (amm.token_y_transfer_fee_config, amm.token_x_transfer_fee_config)
    };
    let exchange_in = params.amount - spec_transfer_fee(in_fees, params.amount as int, params.epoch as int);
    if params.swap_mode != SwapMode::ExactIn {
        Err(AmmError::ExactOutNotSupported)
    } else if exchange_in == 0 {
        Err(AmmError::InputTooSmall)
    } else {
        match spec_quote(exchange_in, x_to_y, amm.amm_config, amm.pool, amm.reserve_x_balance, amm.reserve_y_balance) {
            Err(e) => Err(e),
            Ok(s) => {
                let out = s.to_amount - spec_transfer_fee(out_fees, s.to_amount as int, params.epoch as int);
                if out == 0 {
                    Err(AmmError::OutputZero)
                } else {
                    Ok(
                        Quote {
                            in_amount: s.from_amount,
                            out_amount: out as u64,
                            fee_amount: s.trade_fee,
                            fee_mint: params.input_mint,
                            fee_pct: amm.amm_config.trade_fee_rate,
                        },
                    )
                }
            },
        }
    }
}

impl DarklakeAmm {
    /// Balances cover what the pool owes, and the mints' fee rates are at most 100%.
    pub open spec fn wf(self) -> bool {
        &&& balances_wf(self.pool, self.reserve_x_balance, self.reserve_y_balance)
        &&& fee_config_wf(self.token_x_transfer_fee_config)
        &&& fee_config_wf(self.token_y_transfer_fee_config)
    }

    /// Name of the exchange.
    pub fn label(&self) -> (r: String)
        ensures
            r@ == "Darklake"@,
    {
        String::from_str("Darklake")
    }

    /// Address of the exchange program, in base58.
    pub fn program_id(&self) -> (r: &'static str)
        ensures
            r == DARKLAKE_PROGRAM_ID,
    {
        DARKLAKE_PROGRAM_ID
    }

    /// Address of the pool.
    pub fn key(&self) -> (r: Address)
        ensures
            r == self.key,
    {
        self.key
    }

    /// The two mints the pool trades.
    pub fn get_reserve_mints(&self) -> (r: Vec<Address>)
        ensures
            r@ == seq![self.pool.token_mint_x, self.pool.token_mint_y],
    {
        vec![self.pool.token_mint_x, self.pool.token_mint_y]
    }

    /// Only exact-input swaps are priced.
    pub fn supports_exact_out(&self) -> (r: bool)
        ensures
            !r,
    {
        false
    }

    /// Whether the exchange accepts operations.
    pub fn is_active(&self) -> (r: bool)
        ensures
            r == !self.amm_config.halted,
    {
        !self.amm_config.halted
    }

    /// Quotes an exact-input swap: takes the input mint's transfer fee, prices
    /// the rest with `quote`, then takes the output mint's transfer fee.
    pub fn quote(&self, quote_params: &QuoteParams) -> (r: Result<Quote, AmmError>)
        requires
            self.wf(),
        ensures
            r == spec_amm_quote(*self, *quote_params),
    {
        if quote_params.swap_mode != SwapMode::ExactIn {
            return Err(AmmError::ExactOutNotSupported);
        }
        let x_to_y = same_address(&quote_params.input_mint, &self.pool.token_mint_x);
        let (in_fees, out_fees) = if x_to_y {
            (&self.token_x_transfer_fee_config, &self.token_y_transfer_fee_config)
        } else {
            (&self.token_y_transfer_fee_config, &self.token_x_transfer_fee_config)
        };
        let input_fee = get_transfer_fee(in_fees, quote_params.amount, quote_params.epoch);
        let exchange_in = quote_params.amount - input_fee;
        if exchange_in == 0 {
            return Err(AmmError::InputTooSmall);
        }
        let s = match quote(
            exchange_in,
            x_to_y,
            &self.amm_config,
            &self.pool,
            self.reserve_x_balance,
            self.reserve_y_balance,
        ) {
            Ok(s) => s,
            Err(e) => return Err(e),
        };
        let output_fee = get_transfer_fee(out_fees, s.to_amount, quote_params.epoch);
        let out_amount = s.to_amount - output_fee;
        if out_amount == 0 {
            return Err(AmmError::OutputZero);
        }
        Ok(
            Quote {
                in_amount: s.from_amount,
                out_amount,
                fee_amount: s.trade_fee,
                fee_mint: quote_params.input_mint,
                fee_pct: self.amm_config.trade_fee_rate,
            },
        )
    }

    /// Addresses whose accounts `update` reads: the pool, its mints, its
    /// reserves and the exchange configuration.
    pub fn get_accounts_to_update(&self) -> (r: Vec<Address>)
        ensures
            r@ == seq![
                self.key,
                self.pool.token_mint_x,
                self.pool.token_mint_y,
                self.pool.reserve_x,
                self.pool.reserve_y,
                self.pool.amm_config,
            ],
    {
        vec![
            self.key,
            self.pool.token_mint_x,
            self.pool.token_mint_y,
            self.pool.reserve_x,
            self.pool.reserve_y,
            self.pool.amm_config,
        ]
    }

    /// Refreshes the pool, the configuration, the reserve balances and the
    /// mints' fee settings. Either every field is replaced or, when an account
    /// does not decode, nothing is.
    pub fn update(
        &mut self,
        pool_data: &[u8],
        amm_config_data: &[u8],
        reserve_x_balance: u64,
        reserve_y_balance: u64,
        token_x_transfer_fee_config: Option<TransferFeeConfig>,
        token_y_transfer_fee_config: Option<TransferFeeConfig>,
    ) -> (r: Result<(), AmmError>)
        ensures
            r is Ok <==> (pool_bytes_ok(pool_data@) && amm_config_bytes_ok(amm_config_data@)),
            r is Err ==> *final(self) == *old(self),
            r is Ok ==> {
                &&& pool_decodes(final(self).pool, pool_data@)
                &&& amm_config_decodes(final(self).amm_config, amm_config_data@)
                &&& final(self).key == old(self).key
                &&& final(self).reserve_x_balance == reserve_x_balance
                &&& final(self).reserve_y_balance == reserve_y_balance
                &&& final(self).token_x_owner == old(self).token_x_owner
                &&& final(self).token_y_owner == old(self).token_y_owner
                &&& final(self).token_x_transfer_fee_config == token_x_transfer_fee_config
                &&& final(self).token_y_transfer_fee_config == token_y_transfer_fee_config
            },
    {
        let pool = match parse_pool(pool_data) {
            Ok(p) => p,
            Err(e) => return Err(e),
        };
        let amm_config = match parse_amm_config(amm_config_data) {
            Ok(c) => c,
            Err(e) => return Err(e),
        };
        self.pool = pool;
        self.amm_config = amm_config;
        self.reserve_x_balance = reserve_x_balance;
        self.reserve_y_balance = reserve_y_balance;
        self.token_x_transfer_fee_config = token_x_transfer_fee_config;
        self.token_y_transfer_fee_config = token_y_transfer_fee_config;
        Ok(())
    }

    /// Decodes an order account.
    pub fn parse_order_data(&self, order_data: &[u8]) -> (r: Result<Order, AmmError>)
        ensures
            r is Ok <==> order_bytes_ok(order_data@),
            r matches Err(e) ==> e == AmmError::InvalidAccountData,
            r matches Ok(o) ==> order_decodes(o, order_data@),
    {
        parse_order(order_data)
    }

    /// Amount owed to the trader of an order account, and its deadline.
    pub fn get_order_output_and_deadline(&self, order_data: &[u8]) -> (r: Result<(u64, u64), AmmError>)
        ensures
            r is Ok <==> order_bytes_ok(order_data@),
            r matches Ok(v) ==> exists|o: Order| order_decodes(o, order_data@) && v == (o.actual_out, o.deadline),
    {
        match parse_order(order_data) {
            Ok(order) => Ok((order.actual_out, order.deadline)),
            Err(e) => Err(e),
        }
    }

    /// Whether an order account can no longer be settled or cancelled at
    /// `current_slot`.
    pub fn is_order_expired(&self, order_data: &[u8], current_slot: u64) -> (r: Result<bool, AmmError>)
        ensures
            r is Ok <==> order_bytes_ok(order_data@),
            r matches Ok(b) ==> exists|o: Order| order_decodes(o, order_data@) && b == (o.deadline < current_slot),
    {
        match parse_order(order_data) {
            Ok(order) => Ok(order.deadline < current_slot),
            Err(e) => Err(e),
        }
    }
}

/// A client view of the pool whose account bytes are `account_data`, before
/// any `update`: no configuration, balances or fee settings yet.
pub fn create_darklake_amm(key: Address, account_data: &[u8]) -> (r: Result<DarklakeAmm, AmmError>)
    ensures
        r is Ok <==> pool_bytes_ok(account_data@),
        r matches Err(e) ==> e == AmmError::InvalidAccountData,
        r matches Ok(amm) ==> {
            &&& amm.key == key
            &&& pool_decodes(amm.pool, account_data@)
            &&& amm.amm_config.trade_fee_rate == 0 && amm.amm_config.protocol_fee_rate == 0
                && amm.amm_config.ratio_change_tolerance_rate == 0 && !amm.amm_config.halted
            &&& amm.reserve_x_balance == 0 && amm.reserve_y_balance == 0
            &&& amm.token_x_transfer_fee_config is None && amm.token_y_transfer_fee_config is None
        },
{
    let pool = match parse_pool(account_data) {
        Ok(p) => p,
        Err(e) => return Err(e),
    };
    Ok(
        DarklakeAmm {
            key,
            pool,
            amm_config: AmmConfig {
                trade_fee_rate: 0,
                create_pool_fee: 0,
                protocol_fee_rate: 0,
                wsol_trade_deposit: 0,
                deadline_slot_duration: 0,
                ratio_change_tolerance_rate: 0,
                bump: 0,
                halted: false,
                padding: [0; 16],
            },
            reserve_x_balance: 0,
            reserve_y_balance: 0,
            token_x_owner: [0; 32],
            token_y_owner: [0; 32],
            token_x_transfer_fee_config: None,
            token_y_transfer_fee_config: None,
        },
    )
}

} // verus!
