//! Epoch-scheduled token transfer fees, as a token mint configures them.

use vstd::prelude::*;

verus! {

/// 100% in basis points; also the largest fee rate a mint may configure.
pub const MAX_FEE_BASIS_POINTS: u16 = 10_000;

/// One fee rate, in force from `epoch` on.
#[derive(Clone, Copy, Debug, PartialEq, Eq, Structural)]
pub struct TransferFee {
    pub epoch: u64,
    pub maximum_fee: u64,
    pub transfer_fee_basis_points: u16,
}

/// The two most recent fee rates of a mint.
#[derive(Clone, Copy, Debug, PartialEq, Eq, Structural)]
pub struct TransferFeeConfig {
    pub older_transfer_fee: TransferFee,
    pub newer_transfer_fee: TransferFee,
}

impl TransferFee {
    /// The rate is at most 100%.
    pub open spec fn wf(self) -> bool {
        self.transfer_fee_basis_points <= MAX_FEE_BASIS_POINTS
    }

    /// `min(ceil(amount * bps / 10_000), maximum_fee)`, and zero for a zero
    /// rate or amount.
    pub open spec fn spec_fee(self, amount: int) -> int {
        let bps = self.transfer_fee_basis_points as int;
        if bps == 0 || amount == 0 {
            0
        } else {
            let raw = (amount * bps + 10_000 - 1) / 10_000;
            if raw <= self.maximum_fee {
                raw
            } else {
                self.maximum_fee as int
            }
        }
    }

    /// The fee withheld from a transfer of `pre_fee_amount`.
    pub fn calculate_fee(&self, pre_fee_amount: u64) -> (r: u64)
        requires
            self.wf(),
        ensures
            r == self.spec_fee(pre_fee_amount as int),
            r <= pre_fee_amount,
    {
        let bps = self.transfer_fee_basis_points as u128;
        if bps == 0 || pre_fee_amount == 0 {
            return 0;
        }
        let amount = pre_fee_amount as u128;
        proof {
            assert(amount * bps <= amount * 10_000) by (nonlinear_arith)
                requires
                    bps <= 10_000,
            ;
            assert((amount * bps + 10_000 - 1) / 10_000 <= amount) by (nonlinear_arith)
                requires
                    amount * bps <= amount * 10_000,
            ;
        }
        let raw = (amount * bps + 10_000 - 1) / 10_000;
        if raw <= self.maximum_fee as u128 {
            raw as u64
        } else {
            self.maximum_fee
        }
    }
}

impl TransferFeeConfig {
    /// Both rates are at most 100%.
    pub open spec fn wf(self) -> bool {
        self.older_transfer_fee.wf() && self.newer_transfer_fee.wf()
    }

    /// The rate in force at `epoch`: the newer one once its epoch is reached.
    pub open spec fn spec_epoch_fee(self, epoch: int) -> TransferFee {
        if epoch >= self.newer_transfer_fee.epoch {
            self.newer_transfer_fee
        } else {
            self.older_transfer_fee
        }
    }

    /// The rate in force at `epoch`.
    pub fn get_epoch_fee(&self, epoch: u64) -> (r: TransferFee)
        ensures
            r == self.spec_epoch_fee(epoch as int),
    {
        if epoch >= self.newer_transfer_fee.epoch {
            self.newer_transfer_fee
        } else {
            self.older_transfer_fee
        }
    }

    /// The fee withheld at `epoch` from a transfer of `pre_fee_amount`.
    pub fn calculate_epoch_fee(&self, epoch: u64, pre_fee_amount: u64) -> (r: u64)
        requires
            self.wf(),
        ensures
            r == self.spec_epoch_fee(epoch as int).spec_fee(pre_fee_amount as int),
            r <= pre_fee_amount,
    {
        self.get_epoch_fee(epoch).calculate_fee(pre_fee_amount)
    }
}

/// A fee configuration that is absent or well formed.
pub open spec fn fee_config_wf(config: Option<TransferFeeConfig>) -> bool {
    match config {
        Some(c) => c.wf(),
        None => true,
    }
}

/// The transfer fee on `amount` at `epoch`: zero for a mint without fees.
pub open spec fn spec_transfer_fee(config: Option<TransferFeeConfig>, amount: int, epoch: int) -> int {
    match config {
        Some(c) => c.spec_epoch_fee(epoch).spec_fee(amount),
        None => 0,
    }
}

/// The transfer fee withheld from `pre_fee_amount` at `epoch`.
pub fn get_transfer_fee(
    transfer_fee_config: &Option<TransferFeeConfig>,
    pre_fee_amount: u64,
    epoch: u64,
) -> (r: u64)
    requires
        fee_config_wf(*transfer_fee_config),
    ensures
        r == spec_transfer_fee(*transfer_fee_config, pre_fee_amount as int, epoch as int),
        r <= pre_fee_amount,
{
    match transfer_fee_config {
        Some(c) => c.calculate_epoch_fee(epoch, pre_fee_amount),
        None => 0,
    }
}

} // verus!
