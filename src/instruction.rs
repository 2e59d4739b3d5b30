//! Instruction payloads of the order operations, and the choice of how an
//! open order is finalized.

use vstd::prelude::*;
use crate::commitment::{commit, commits_to};
use crate::encoding::{limb_byte, lemma_pow256_positive, pow256};

verus! {

pub const SWAP_DISCRIMINATOR: [u8; 8] = [248, 198, 158, 145, 225, 117, 135, 200];

pub const SETTLE_DISCRIMINATOR: [u8; 8] = [175, 42, 185, 87, 144, 131, 102, 212];

pub const CANCEL_DISCRIMINATOR: [u8; 8] = [232, 219, 223, 41, 219, 236, 220, 190];

pub const SLASH_DISCRIMINATOR: [u8; 8] = [204, 141, 18, 161, 8, 177, 92, 142];

pub const INITIALIZE_POOL_DISCRIMINATOR: [u8; 8] = [95, 180, 10, 172, 84, 174, 232, 40];

pub const ADD_LIQUIDITY_DISCRIMINATOR: [u8; 8] = [181, 157, 89, 67, 143, 182, 52, 72];

pub const REMOVE_LIQUIDITY_DISCRIMINATOR: [u8; 8] = [80, 85, 209, 72, 24, 206, 177, 108];

/// Little-endian 8 bytes of `v`.
pub open spec fn u64_le(v: u64) -> Seq<u8> {
    Seq::new(8, |i: int| limb_byte(v, i))
}

/// Appends `src` to `out`.
fn push_all(out: &mut Vec<u8>, src: &[u8])
    ensures
        final(out)@ == old(out)@ + src@,
{
    let mut i: usize = 0;
    while i < src.len()
        invariant
            i <= src@.len(),
            out@ == old(out)@ + src@.subrange(0, i as int),
        decreases src.len() - i,
    {
        out.push(src[i]);
        i = i + 1;
        assert(src@.subrange(0, i as int) =~= src@.subrange(0, (i - 1) as int).push(src@[i - 1]));
    }
    assert(src@.subrange(0, src@.len() as int) =~= src@);
}

/// Appends the little-endian bytes of `v` to `out`.
fn push_u64_le(out: &mut Vec<u8>, v: u64)
    ensures
        final(out)@ == old(out)@ + u64_le(v),
{
    let mut w: u64 = v;
    let mut j: usize = 0;
    assert(pow256(0) == 1);
    while j < 8
        invariant
            j <= 8,
            w as int == v as int / pow256(j as nat) as int,
            out@ == old(out)@ + u64_le(v).subrange(0, j as int),
        decreases 8 - j,
    {
        out.push((w % 256) as u8);
        proof {
            lemma_pow256_positive(j as nat);
            vstd::arithmetic::div_mod::lemma_div_denominator(
                v as int,
                pow256(j as nat) as int,
                256,
            );
            assert(pow256(j as nat) * 256 == 256 * pow256(j as nat)) by (nonlinear_arith);
            assert(u64_le(v).subrange(0, j + 1) =~= u64_le(v).subrange(0, j as int).push(
                limb_byte(v, j as int),
            ));
        }
        w = w / 256;
        j = j + 1;
    }
    assert(u64_le(v).subrange(0, 8) =~= u64_le(v));
}

/// Arguments of a swap instruction.
#[derive(Clone, Copy, Debug, PartialEq, Eq)]
pub struct DarklakeAmmSwapParams {
    pub amount_in: u64,
    pub is_swap_x_to_y: bool,
    /// Commitment to the trader's minimum output.
    pub c_min: [u8; 32],
}

/// Arguments of a settle instruction.
#[derive(Clone, Copy, Debug, PartialEq, Eq)]
pub struct DarklakeAmmSettleParams {
    pub proof_a: [u8; 64],
    pub proof_b: [u8; 128],
    pub proof_c: [u8; 64],
    pub public_signals: [[u8; 32]; 2],
    /// Whether wrapped SOL output is unwrapped for the trader.
    pub unwrap_wsol: bool,
}

/// Arguments of a cancel instruction.
#[derive(Clone, Copy, Debug, PartialEq, Eq)]
pub struct DarklakeAmmCancelParams {
    pub proof_a: [u8; 64],
    pub proof_b: [u8; 128],
    pub proof_c: [u8; 64],
    pub public_signals: [[u8; 32]; 2],
}

/// Arguments of a slash instruction (it has none).
#[derive(Clone, Copy, Debug, PartialEq, Eq, Structural)]
pub struct DarklakeAmmSlashParams {}

/// Payload of a swap: `discriminator ‖ amount_in ‖ direction ‖ commitment`.
pub open spec fn swap_layout(p: DarklakeAmmSwapParams) -> Seq<u8> {
    SWAP_DISCRIMINATOR@ + u64_le(p.amount_in) + seq![if p.is_swap_x_to_y { 1u8 } else { 0u8 }]
        + p.c_min@
}

/// Payload of a settle:
/// `discriminator ‖ A ‖ B ‖ C ‖ signal0 ‖ signal1 ‖ unwrap_flag`.
pub open spec fn settle_layout(p: DarklakeAmmSettleParams) -> Seq<u8> {
    SETTLE_DISCRIMINATOR@ + p.proof_a@ + p.proof_b@ + p.proof_c@ + p.public_signals[0]@
        + p.public_signals[1]@ + seq![if p.unwrap_wsol { 1u8 } else { 0u8 }]
}

/// Payload of a cancel: `discriminator ‖ A ‖ B ‖ C ‖ signal0 ‖ signal1`.
pub open spec fn cancel_layout(p: DarklakeAmmCancelParams) -> Seq<u8> {
    CANCEL_DISCRIMINATOR@ + p.proof_a@ + p.proof_b@ + p.proof_c@ + p.public_signals[0]@
        + p.public_signals[1]@
}

impl DarklakeAmmSwapParams {
    /// Instruction payload.
    pub fn data(&self) -> (r: Vec<u8>)
        ensures
            r@ == swap_layout(*self),
    {
        let mut data: Vec<u8> = Vec::new();
        push_all(&mut data, &SWAP_DISCRIMINATOR);
        push_u64_le(&mut data, self.amount_in);
        data.push(if self.is_swap_x_to_y { 1u8 } else { 0u8 });
        push_all(&mut data, &self.c_min);
        data
    }
}

impl DarklakeAmmSettleParams {
    /// Instruction payload.
    pub fn data(&self) -> (r: Vec<u8>)
        ensures
            r@ == settle_layout(*self),
    {
        let mut data: Vec<u8> = Vec::new();
        push_all(&mut data, &SETTLE_DISCRIMINATOR);
        push_all(&mut data, &self.proof_a);
        push_all(&mut data, &self.proof_b);
        push_all(&mut data, &self.proof_c);
        push_all(&mut data, &self.public_signals[0]);
        push_all(&mut data, &self.public_signals[1]);
        data.push(if self.unwrap_wsol { 1u8 } else { 0u8 });
        data
    }
}

impl DarklakeAmmCancelParams {
    /// Instruction payload.
    pub fn data(&self) -> (r: Vec<u8>)
        ensures
            r@ == cancel_layout(*self),
    {
        let mut data: Vec<u8> = Vec::new();
        push_all(&mut data, &CANCEL_DISCRIMINATOR);
        push_all(&mut data, &self.proof_a);
        push_all(&mut data, &self.proof_b);
        push_all(&mut data, &self.proof_c);
        push_all(&mut data, &self.public_signals[0]);
        push_all(&mut data, &self.public_signals[1]);
        data
    }
}

impl DarklakeAmmSlashParams {
    /// Instruction payload: the discriminator alone.
    pub fn data(&self) -> (r: Vec<u8>)
        ensures
            r@ == SLASH_DISCRIMINATOR@,
    {
        let mut data: Vec<u8> = Vec::new();
        push_all(&mut data, &SLASH_DISCRIMINATOR);
        data
    }
}

/// Borsh form of an optional fixed-size field: `0`, or `1` and the bytes.
pub open spec fn option_layout(o: Option<Seq<u8>>) -> Seq<u8> {
    match o {
        None => seq![0u8],
        Some(b) => seq![1u8] + b,
    }
}

/// Appends the Borsh form of an optional fixed-size field.
fn push_option<const N: usize>(out: &mut Vec<u8>, o: &Option<[u8; N]>)
    ensures
        final(out)@ == old(out)@ + option_layout(
            match *o {
                None => None,
                Some(b) => Some(b@),
            },
        ),
{
    match o {
        None => out.push(0u8),
        Some(b) => {
            out.push(1u8);
            push_all(out, b);
            assert(old(out)@ + (seq![1u8] + b@) =~= old(out)@.push(1u8) + b@);
        },
    }
}

/// The view of an optional fixed-size field.
pub open spec fn opt_view<const N: usize>(o: Option<[u8; N]>) -> Option<Seq<u8>> {
    match o {
        None => None,
        Some(b) => Some(b@),
    }
}

/// Arguments of a pool initialization.
#[derive(Clone, Copy, Debug, PartialEq, Eq)]
pub struct DarklakeAmmInitializePoolParams {
    pub amount_x: u64,
    pub amount_y: u64,
    /// Optional client label.
    pub label: Option<[u8; 21]>,
}

/// Arguments of a liquidity deposit.
#[derive(Clone, Copy, Debug, PartialEq, Eq)]
pub struct DarklakeAmmAddLiquidityParams {
    /// Liquidity tokens to mint.
    pub amount_lp: u64,
    pub max_amount_x: u64,
    pub max_amount_y: u64,
    /// Optional referral code.
    pub ref_code: Option<[u8; 20]>,
    pub label: Option<[u8; 21]>,
}

/// Arguments of a liquidity withdrawal.
#[derive(Clone, Copy, Debug, PartialEq, Eq)]
pub struct DarklakeAmmRemoveLiquidityParams {
    /// Liquidity tokens to burn.
    pub amount_lp: u64,
    pub min_amount_x: u64,
    pub min_amount_y: u64,
    pub label: Option<[u8; 21]>,
}

impl DarklakeAmmInitializePoolParams {
    /// Instruction payload: `discriminator ‖ amount_x ‖ amount_y ‖ label`.
    pub fn data(&self) -> (r: Vec<u8>)
        ensures
            r@ == INITIALIZE_POOL_DISCRIMINATOR@ + u64_le(self.amount_x) + u64_le(self.amount_y)
                + option_layout(opt_view(self.label)),
    {
        let mut data: Vec<u8> = Vec::new();
        push_all(&mut data, &INITIALIZE_POOL_DISCRIMINATOR);
        push_u64_le(&mut data, self.amount_x);
        push_u64_le(&mut data, self.amount_y);
        push_option(&mut data, &self.label);
        data
    }
}

impl DarklakeAmmAddLiquidityParams {
    /// Instruction payload:
    /// `discriminator ‖ amount_lp ‖ max_amount_x ‖ max_amount_y ‖ ref_code ‖ label`.
    pub fn data(&self) -> (r: Vec<u8>)
        ensures
            r@ == ADD_LIQUIDITY_DISCRIMINATOR@ + u64_le(self.amount_lp) + u64_le(self.max_amount_x)
                + u64_le(self.max_amount_y) + option_layout(opt_view(self.ref_code)) + option_layout(
                opt_view(self.label),
            ),
    {
        let mut data: Vec<u8> = Vec::new();
        push_all(&mut data, &ADD_LIQUIDITY_DISCRIMINATOR);
        push_u64_le(&mut data, self.amount_lp);
        push_u64_le(&mut data, self.max_amount_x);
        push_u64_le(&mut data, self.max_amount_y);
        push_option(&mut data, &self.ref_code);
        push_option(&mut data, &self.label);
        data
    }
}

impl DarklakeAmmRemoveLiquidityParams {
    /// Instruction payload:
    /// `discriminator ‖ amount_lp ‖ min_amount_x ‖ min_amount_y ‖ label`.
    pub fn data(&self) -> (r: Vec<u8>)
        ensures
            r@ == REMOVE_LIQUIDITY_DISCRIMINATOR@ + u64_le(self.amount_lp) + u64_le(self.min_amount_x)
                + u64_le(self.min_amount_y) + option_layout(opt_view(self.label)),
    {
        let mut data: Vec<u8> = Vec::new();
        push_all(&mut data, &REMOVE_LIQUIDITY_DISCRIMINATOR);
        push_u64_le(&mut data, self.amount_lp);
        push_u64_le(&mut data, self.min_amount_x);
        push_u64_le(&mut data, self.min_amount_y);
        push_option(&mut data, &self.label);
        data
    }
}

/// A swap instruction: its arguments and payload.
#[derive(Clone, Debug, PartialEq, Eq)]
pub struct SwapInstruction {
    pub discriminator: [u8; 8],
    pub swap: DarklakeAmmSwapParams,
    pub data: Vec<u8>,
}

/// Builds a swap instruction that binds the order to a commitment of the
/// trader's private minimum output `min_out` under `salt`.
pub fn get_swap_instruction(amount_in: u64, is_swap_x_to_y: bool, min_out: u64, salt: [u8; 8]) -> (r:
    SwapInstruction)
    ensures
        r.discriminator == SWAP_DISCRIMINATOR,
        r.swap.amount_in == amount_in,
        r.swap.is_swap_x_to_y == is_swap_x_to_y,
        commits_to(r.swap.c_min@, min_out, salt@),
        r.data@ == swap_layout(r.swap),
{
    let c_min = commit(min_out, salt);
    let swap = DarklakeAmmSwapParams { amount_in, is_swap_x_to_y, c_min };
    let data = swap.data();
    SwapInstruction { discriminator: SWAP_DISCRIMINATOR, swap, data }
}

} // verus!
