//! Finalizing an open order: slash after the deadline, otherwise settle when
//! the realized output meets the private threshold and cancel when it does not.

use vstd::prelude::*;
use crate::commitment::salt_to_u64;
use crate::encoding::{from_32_byte_buffer, le_nat, spec_from_32_byte_buffer, to_32_byte_buffer, U256};
use crate::error::AmmError;
use crate::instruction::{
    cancel_layout, settle_layout, DarklakeAmmCancelParams, DarklakeAmmSettleParams,
    DarklakeAmmSlashParams, CANCEL_DISCRIMINATOR, SETTLE_DISCRIMINATOR, SLASH_DISCRIMINATOR,
};
use crate::proof_format::{u64_be32, GeneratedProof, PrivateProofInputs, PublicProofInputs};
use crate::state::same_address;

verus! {

/// The three ways an order ends.
#[derive(Clone, Copy, Debug, PartialEq, Eq, Structural)]
pub enum FinalizePath {
    Settle,
    Cancel,
    Slash,
}

/// Everything needed to finalize an order, whichever way it ends.
#[derive(Clone, Copy, Debug, PartialEq, Eq)]
pub struct FinalizeParams {
    pub unwrap_wsol: bool,
    /// The trader's private minimum output.
    pub min_out: u64,
    pub salt: [u8; 8],
    /// Output the order realized.
    pub output: u64,
    /// Commitment stored in the order.
    pub commitment: [u8; 32],
    pub deadline: u64,
    pub current_slot: u64,
}

/// A settle request.
#[derive(Clone, Copy, Debug, PartialEq, Eq)]
pub struct SettleParams {
    pub unwrap_wsol: bool,
    pub min_out: u64,
    pub salt: [u8; 8],
    pub output: u64,
    pub commitment: [u8; 32],
    pub deadline: u64,
    pub current_slot: u64,
}

/// A cancel request.
#[derive(Clone, Copy, Debug, PartialEq, Eq)]
pub struct CancelParams {
    pub min_out: u64,
    pub salt: [u8; 8],
    pub output: u64,
    pub commitment: [u8; 32],
    pub deadline: u64,
    pub current_slot: u64,
}

/// A slash request.
#[derive(Clone, Copy, Debug, PartialEq, Eq, Structural)]
pub struct SlashParams {
    pub deadline: u64,
    pub current_slot: u64,
}

/// A proof in wire form, with its two public signals.
#[derive(Clone, Debug, PartialEq, Eq)]
pub struct ProofParams {
    pub generated_proof: GeneratedProof,
    pub public_inputs: [[u8; 32]; 2],
}

/// A settle instruction: its arguments and payload.
#[derive(Clone, Debug, PartialEq, Eq)]
pub struct SettleInstruction {
    pub discriminator: [u8; 8],
    pub settle: DarklakeAmmSettleParams,
    pub data: Vec<u8>,
}

/// A cancel instruction: its arguments and payload.
#[derive(Clone, Debug, PartialEq, Eq)]
pub struct CancelInstruction {
    pub discriminator: [u8; 8],
    pub cancel: DarklakeAmmCancelParams,
    pub data: Vec<u8>,
}

/// A slash instruction: its arguments and payload.
#[derive(Clone, Debug, PartialEq, Eq)]
pub struct SlashInstruction {
    pub discriminator: [u8; 8],
    pub slash: DarklakeAmmSlashParams,
    pub data: Vec<u8>,
}

/// The instruction that finalizes an order.
#[derive(Clone, Debug, PartialEq, Eq)]
pub enum FinalizeInstruction {
    Settle(SettleInstruction),
    Cancel(CancelInstruction),
    Slash(SlashInstruction),
}

/// The path an order takes: slash once the deadline has passed, whatever the
/// threshold; before it, settle when the output meets the threshold and
/// cancel otherwise.
pub open spec fn spec_finalize_path(min_out: u64, output: u64, deadline: u64, current_slot: u64) -> FinalizePath {
    if current_slot > deadline {
        FinalizePath::Slash
    } else if min_out <= output {
        FinalizePath::Settle
    } else {
        FinalizePath::Cancel
    }
}

/// Chooses how an order is finalized.
pub fn select_finalize_path(params: &FinalizeParams) -> (r: FinalizePath)
    ensures
        r == spec_finalize_path(params.min_out, params.output, params.deadline, params.current_slot),
{
    if params.current_slot > params.deadline {
        FinalizePath::Slash
    } else if params.min_out <= params.output {
        FinalizePath::Settle
    } else {
        FinalizePath::Cancel
    }
}

/// Past the deadline, an order is slashed, whatever its threshold and output.
pub proof fn lemma_expired_order_is_slashed(min_out: u64, output: u64, deadline: u64, current_slot: u64)
    requires
        current_slot > deadline,
    ensures
        spec_finalize_path(min_out, output, deadline, current_slot) == FinalizePath::Slash,
{
}

/// The inputs of the proof an order's finalize needs: the private threshold
/// and salt, and the realized output with the stored commitment.
pub fn proof_inputs(params: &FinalizeParams) -> (r: (PrivateProofInputs, PublicProofInputs))
    ensures
        r.0 == (PrivateProofInputs { min_out: params.min_out, salt: le_nat(params.salt@) as u64 }),
        r.1.real_out == params.output,
        r.1.commitment.le@ == spec_from_32_byte_buffer(params.commitment@),
{
    let private_inputs = PrivateProofInputs {
        min_out: params.min_out,
        salt: salt_to_u64(&params.salt),
    };
    let public_inputs = PublicProofInputs {
        real_out: params.output,
        commitment: from_32_byte_buffer(&params.commitment),
    };
    (private_inputs, public_inputs)
}

/// The two public signals of a proof as a fixed pair; fails unless there are
/// exactly two.
pub fn public_signals_pair(signals: &Vec<[u8; 32]>) -> (r: Result<[[u8; 32]; 2], AmmError>)
    ensures
        r is Err <==> signals@.len() != 2,
        r matches Err(e) ==> e == AmmError::SerializationFailure,
        r matches Ok(p) ==> p@ == signals@,
{
    if signals.len() != 2 {
        return Err(AmmError::SerializationFailure);
    }
    let p = [signals[0], signals[1]];
    assert(p@ =~= signals@);
    Ok(p)
}

/// Copies a payload.
fn copy_bytes(v: &Vec<u8>) -> (r: Vec<u8>)
    ensures
        r@ == v@,
{
    let mut out: Vec<u8> = Vec::new();
    let mut i: usize = 0;
    while i < v.len()
        invariant
            i <= v@.len(),
            out@ == v@.subrange(0, i as int),
        decreases v.len() - i,
    {
        out.push(v[i]);
        i = i + 1;
        assert(out@ =~= v@.subrange(0, i as int));
    }
    assert(v@.subrange(0, v@.len() as int) =~= v@);
    out
}

impl FinalizeInstruction {
    /// The payload of whichever instruction this is.
    pub fn data(&self) -> (r: Vec<u8>)
        ensures
            r@ == match self {
                FinalizeInstruction::Settle(s) => s.data@,
                FinalizeInstruction::Cancel(c) => c.data@,
                FinalizeInstruction::Slash(s) => s.data@,
            },
    {
        match self {
            FinalizeInstruction::Settle(s) => copy_bytes(&s.data),
            FinalizeInstruction::Cancel(c) => copy_bytes(&c.data),
            FinalizeInstruction::Slash(s) => copy_bytes(&s.data),
        }
    }
}

/// The public signals are those of the order: the realized output as 32
/// big-endian bytes, then the stored commitment.
pub open spec fn signals_match(public_inputs: [[u8; 32]; 2], output: u64, commitment: [u8; 32]) -> bool {
    public_inputs[0]@ == u64_be32(output) && public_inputs[1]@ == commitment@
}

/// Whether the public signals are those of the order.
fn check_signals(public_inputs: &[[u8; 32]; 2], output: u64, commitment: &[u8; 32]) -> (r: bool)
    ensures
        r == signals_match(*public_inputs, output, *commitment),
{
    let expected = to_32_byte_buffer(&U256::from_u64(output));
    assert(expected@ =~= u64_be32(output));
    same_address(&public_inputs[0], &expected) && same_address(&public_inputs[1], commitment)
}

/// Builds a settle instruction. Fails with `OrderExpired` past the deadline,
/// then with `WrongFinalizePath` when the output is below the threshold, then
/// with `SerializationFailure` when the proof's public signals are not the
/// order's output and commitment.
pub fn get_settle_instruction(params: &SettleParams, proof_params: &ProofParams) -> (r: Result<
    SettleInstruction,
    AmmError,
>)
    ensures
        params.current_slot > params.deadline ==> r == Err::<SettleInstruction, AmmError>(AmmError::OrderExpired),
        params.current_slot <= params.deadline && params.min_out > params.output ==> r == Err::<
            SettleInstruction,
            AmmError,
        >(AmmError::WrongFinalizePath),
        params.current_slot <= params.deadline && params.min_out <= params.output ==> (r is Ok
            <==> signals_match(proof_params.public_inputs, params.output, params.commitment)),
        params.current_slot <= params.deadline && params.min_out <= params.output && !signals_match(
            proof_params.public_inputs,
            params.output,
            params.commitment,
        ) ==> r == Err::<SettleInstruction, AmmError>(AmmError::SerializationFailure),
        r matches Ok(s) ==> {
            &&& s.discriminator == SETTLE_DISCRIMINATOR
            &&& s.settle == (DarklakeAmmSettleParams {
                proof_a: proof_params.generated_proof.proof_a,
                proof_b: proof_params.generated_proof.proof_b,
                proof_c: proof_params.generated_proof.proof_c,
                public_signals: proof_params.public_inputs,
                unwrap_wsol: params.unwrap_wsol,
            })
            &&& s.data@ == settle_layout(s.settle)
        },
{
    if params.current_slot > params.deadline {
        return Err(AmmError::OrderExpired);
    }
    if params.min_out > params.output {
        return Err(AmmError::WrongFinalizePath);
    }
    if !check_signals(&proof_params.public_inputs, params.output, &params.commitment) {
        return Err(AmmError::SerializationFailure);
    }
    let settle = DarklakeAmmSettleParams {
        proof_a: proof_params.generated_proof.proof_a,
        proof_b: proof_params.generated_proof.proof_b,
        proof_c: proof_params.generated_proof.proof_c,
        public_signals: proof_params.public_inputs,
        unwrap_wsol: params.unwrap_wsol,
    };
    let data = settle.data();
    Ok(SettleInstruction { discriminator: SETTLE_DISCRIMINATOR, settle, data })
}

/// Builds a cancel instruction. Fails with `OrderExpired` past the deadline,
/// then with `WrongFinalizePath` when the output meets the threshold, then
/// with `SerializationFailure` when the proof's public signals are not the
/// order's output and commitment.
pub fn get_cancel_instruction(params: &CancelParams, proof_params: &ProofParams) -> (r: Result<
    CancelInstruction,
    AmmError,
>)
    ensures
        params.current_slot > params.deadline ==> r == Err::<CancelInstruction, AmmError>(AmmError::OrderExpired),
        params.current_slot <= params.deadline && params.min_out <= params.output ==> r == Err::<
            CancelInstruction,
            AmmError,
        >(AmmError::WrongFinalizePath),
        params.current_slot <= params.deadline && params.min_out > params.output ==> (r is Ok
            <==> signals_match(proof_params.public_inputs, params.output, params.commitment)),
        params.current_slot <= params.deadline && params.min_out > params.output && !signals_match(
            proof_params.public_inputs,
            params.output,
            params.commitment,
        ) ==> r == Err::<CancelInstruction, AmmError>(AmmError::SerializationFailure),
        r matches Ok(c) ==> {
            &&& c.discriminator == CANCEL_DISCRIMINATOR
            &&& c.cancel == (DarklakeAmmCancelParams {
                proof_a: proof_params.generated_proof.proof_a,
                proof_b: proof_params.generated_proof.proof_b,
                proof_c: proof_params.generated_proof.proof_c,
                public_signals: proof_params.public_inputs,
            })
            &&& c.data@ == cancel_layout(c.cancel)
        },
{
    if params.current_slot > params.deadline {
        return Err(AmmError::OrderExpired);
    }
    if params.min_out <= params.output {
        return Err(AmmError::WrongFinalizePath);
    }
    if !check_signals(&proof_params.public_inputs, params.output, &params.commitment) {
        return Err(AmmError::SerializationFailure);
    }
    let cancel = DarklakeAmmCancelParams {
        proof_a: proof_params.generated_proof.proof_a,
        proof_b: proof_params.generated_proof.proof_b,
        proof_c: proof_params.generated_proof.proof_c,
        public_signals: proof_params.public_inputs,
    };
    let data = cancel.data();
    Ok(CancelInstruction { discriminator: CANCEL_DISCRIMINATOR, cancel, data })
}

/// Builds a slash instruction; fails with `OrderNotExpired` until the deadline
/// has passed.
pub fn get_slash_instruction(params: &SlashParams) -> (r: Result<SlashInstruction, AmmError>)
    ensures
        params.current_slot <= params.deadline ==> r == Err::<SlashInstruction, AmmError>(AmmError::OrderNotExpired),
        params.current_slot > params.deadline ==> r is Ok,
        r matches Ok(s) ==> s.discriminator == SLASH_DISCRIMINATOR && s.data@ == SLASH_DISCRIMINATOR@,
{
    if params.current_slot <= params.deadline {
        return Err(AmmError::OrderNotExpired);
    }
    let slash = DarklakeAmmSlashParams {};
    let data = slash.data();
    Ok(SlashInstruction { discriminator: SLASH_DISCRIMINATOR, slash, data })
}

/// Builds the instruction that finalizes an order along the path
/// `select_finalize_path` chooses. A slash needs no proof; settle and cancel
/// fail with `ProofGenerationFailure` when no proof is given, and with
/// `SerializationFailure` when its public signals are not the order's output
/// and commitment.
pub fn get_finalize_instruction(params: &FinalizeParams, proof_params: &Option<ProofParams>) -> (r: Result<
    FinalizeInstruction,
    AmmError,
>)
    ensures
        r is Ok <==> (spec_finalize_path(params.min_out, params.output, params.deadline, params.current_slot)
            == FinalizePath::Slash || (proof_params is Some && signals_match(
            proof_params->0.public_inputs,
            params.output,
            params.commitment,
        ))),
        r matches Err(e) ==> (proof_params is None && e == AmmError::ProofGenerationFailure) || (
        proof_params is Some && e == AmmError::SerializationFailure),
        r matches Ok(i) ==> match spec_finalize_path(params.min_out, params.output, params.deadline, params.current_slot) {
            FinalizePath::Slash => i matches FinalizeInstruction::Slash(s)
                && s.discriminator == SLASH_DISCRIMINATOR && s.data@ == SLASH_DISCRIMINATOR@,
            FinalizePath::Settle => i matches FinalizeInstruction::Settle(s)
                && s.discriminator == SETTLE_DISCRIMINATOR
                && s.settle == (DarklakeAmmSettleParams {
                    proof_a: proof_params->0.generated_proof.proof_a,
                    proof_b: proof_params->0.generated_proof.proof_b,
                    proof_c: proof_params->0.generated_proof.proof_c,
                    public_signals: proof_params->0.public_inputs,
                    unwrap_wsol: params.unwrap_wsol,
                })
                && s.data@ == settle_layout(s.settle),
            FinalizePath::Cancel => i matches FinalizeInstruction::Cancel(c)
                && c.discriminator == CANCEL_DISCRIMINATOR
                && c.cancel == (DarklakeAmmCancelParams {
                    proof_a: proof_params->0.generated_proof.proof_a,
                    proof_b: proof_params->0.generated_proof.proof_b,
                    proof_c: proof_params->0.generated_proof.proof_c,
                    public_signals: proof_params->0.public_inputs,
                })
                && c.data@ == cancel_layout(c.cancel),
        },
{
    match select_finalize_path(params) {
        FinalizePath::Slash => {
            let slash = get_slash_instruction(
                &SlashParams { deadline: params.deadline, current_slot: params.current_slot },
            );
            match slash {
                Ok(s) => Ok(FinalizeInstruction::Slash(s)),
                Err(e) => Err(e),
            }
        },
        FinalizePath::Settle => match proof_params {
            None => Err(AmmError::ProofGenerationFailure),
            Some(p) => {
                let built = get_settle_instruction(
                    &SettleParams {
                        unwrap_wsol: params.unwrap_wsol,
                        min_out: params.min_out,
                        salt: params.salt,
                        output: params.output,
                        commitment: params.commitment,
                        deadline: params.deadline,
                        current_slot: params.current_slot,
                    },
                    p,
                );
                match built {
                    Ok(x) => Ok(FinalizeInstruction::Settle(x)),
                    Err(e) => Err(e),
                }
            },
        },
        FinalizePath::Cancel => match proof_params {
            None => Err(AmmError::ProofGenerationFailure),
            Some(p) => {
                let built = get_cancel_instruction(
                    &CancelParams {
                        min_out: params.min_out,
                        salt: params.salt,
                        output: params.output,
                        commitment: params.commitment,
                        deadline: params.deadline,
                        current_slot: params.current_slot,
                    },
                    p,
                );
                match built {
                    Ok(x) => Ok(FinalizeInstruction::Cancel(x)),
                    Err(e) => Err(e),
                }
            },
        },
    }
}

} // verus!
