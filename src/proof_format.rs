//! Groth16 proofs and their public signals in the byte layout the on-chain
//! verifier reads.

use vstd::prelude::*;
use crate::encoding::{bigint_to_bytes_be, limb_byte, limbs_be, spec_to_32_byte_buffer, to_32_byte_buffer, U256};
use ark_bn254::Fq;
use ark_ff::{BigInt, PrimeField};

verus! {

/// The value of four 64-bit limbs, least significant first.
pub open spec fn limbs_value(l: Seq<u64>) -> int {
    l[0] + l[1] * 0x1_0000_0000_0000_0000int + l[2] * 0x1_0000_0000_0000_0000_0000_0000_0000_0000int
        + l[3] * 0x1_0000_0000_0000_0000_0000_0000_0000_0000_0000_0000_0000_0000int
}

/// Order of the BN254 base field,
/// 21888242871839275222246405745257275088696311157297823662689037894645226208583.
pub open spec fn base_field_modulus() -> int {
    21888242871839275222246405745257275088696311157297823662689037894645226208583int
}

/// `-v` in the base field, for `v` below its order.
pub open spec fn base_field_neg(v: int) -> int {
    if v == 0 {
        0
    } else {
        base_field_modulus() - v
    }
}

/// Relies on ark_ff's negation of a BN254 base field element (`Neg` for
/// `Fq`), reading and writing the canonical value through `from_bigint` and
/// `into_bigint`.
#[verifier::external_body]
fn negate_base_field(v: &[u64; 4]) -> (r: [u64; 4])
    requires
        limbs_value(v@) < base_field_modulus(),
    ensures
        limbs_value(r@) == base_field_neg(limbs_value(v@)),
{
    (-Fq::from_bigint(BigInt::new(*v)).unwrap()).into_bigint().0
}

/// An affine point of G1; coordinates are canonical base field values.
#[derive(Clone, Copy, Debug, PartialEq, Eq)]
pub struct G1Point {
    pub x: [u64; 4],
    pub y: [u64; 4],
}

/// An affine point of G2; each coordinate is `c0 + c1 * u` over the base field.
#[derive(Clone, Copy, Debug, PartialEq, Eq)]
pub struct G2Point {
    pub x0: [u64; 4],
    pub x1: [u64; 4],
    pub y0: [u64; 4],
    pub y1: [u64; 4],
}

/// The three points of a Groth16 proof.
#[derive(Clone, Copy, Debug, PartialEq, Eq)]
pub struct ProofPoints {
    pub a: G1Point,
    pub b: G2Point,
    pub c: G1Point,
}

/// Inputs known only to the trader.
#[derive(Clone, Copy, Debug, PartialEq, Eq, Structural)]
pub struct PrivateProofInputs {
    pub min_out: u64,
    pub salt: u64,
}

/// Inputs the verifier sees.
#[derive(Clone, Copy, Debug, PartialEq, Eq)]
pub struct PublicProofInputs {
    pub real_out: u64,
    pub commitment: U256,
}

/// A proof and its public signals in wire form.
#[derive(Clone, Debug, PartialEq, Eq)]
pub struct GeneratedProof {
    pub proof_a: [u8; 64],
    pub proof_b: [u8; 128],
    pub proof_c: [u8; 64],
    pub public_signals: Vec<[u8; 32]>,
}

/// Wire form of a G1 point: `x ‖ y`, each big-endian.
pub open spec fn g1_wire(p: G1Point) -> Seq<u8> {
    limbs_be(p.x@) + limbs_be(p.y@)
}

/// Wire form of a G2 point: `x1 ‖ x0 ‖ y1 ‖ y0`, each big-endian.
pub open spec fn g2_wire(p: G2Point) -> Seq<u8> {
    limbs_be(p.x1@) + limbs_be(p.x0@) + limbs_be(p.y1@) + limbs_be(p.y0@)
}

/// `r` is the wire form of `-p`: `x` unchanged, `y` negated.
pub open spec fn is_negated_g1_wire(r: Seq<u8>, p: G1Point) -> bool {
    exists|ny: Seq<u64>|
        ny.len() == 4 && limbs_value(ny) == base_field_neg(limbs_value(p.y@)) && r == limbs_be(p.x@)
            + limbs_be(ny)
}

/// Copies `src` to `out[at..at + 32]`.
fn write_32<const N: usize>(out: &mut [u8; N], at: usize, src: &[u8; 32])
    requires
        at + 32 <= N,
    ensures
        forall|k: int| 0 <= k < 32 ==> final(out)@[at + k] == src@[k],
        forall|i: int| 0 <= i < N && !(at <= i < at + 32) ==> final(out)@[i] == old(out)@[i],
{
    let mut k: usize = 0;
    while k < 32
        invariant
            k <= 32,
            at + 32 <= N,
            forall|j: int| 0 <= j < k ==> out@[at + j] == src@[j],
            forall|i: int| 0 <= i < N && !(at <= i < at + k) ==> out@[i] == old(out)@[i],
        decreases 32 - k,
    {
        out[at + k] = src[k];
        k = k + 1;
    }
}

/// Wire form of a G1 point.
fn g1_uncompressed(point: &G1Point) -> (r: [u8; 64])
    ensures
        r@ == g1_wire(*point),
{
    let x = bigint_to_bytes_be(&point.x);
    let y = bigint_to_bytes_be(&point.y);
    let mut out = [0u8; 64];
    write_32(&mut out, 0, &x);
    write_32(&mut out, 32, &y);
    assert forall|i: int| 0 <= i < 64 implies out@[i] == g1_wire(*point)[i] by {
        if i >= 32 {
            assert(out@[32 + (i - 32)] == y@[i - 32]);
        }
    }
    assert(out@ =~= g1_wire(*point));
    out
}

/// Wire form of the negation of a G1 point, as the verifier's pairing check
/// expects for the first proof point.
fn negate_and_serialize_g1(point: &G1Point) -> (r: [u8; 64])
    requires
        limbs_value(point.y@) < base_field_modulus(),
    ensures
        is_negated_g1_wire(r@, *point),
{
    let ny = negate_base_field(&point.y);
    let negated = G1Point { x: point.x, y: ny };
    let r = g1_uncompressed(&negated);
    assert(r@ == limbs_be(point.x@) + limbs_be(ny@));
    assert(ny@.len() == 4);
    assert(is_negated_g1_wire(r@, *point));
    r
}

/// Wire form of a G2 point.
fn g2_uncompressed(point: &G2Point) -> (r: [u8; 128])
    ensures
        r@ == g2_wire(*point),
{
    let x0 = bigint_to_bytes_be(&point.x0);
    let x1 = bigint_to_bytes_be(&point.x1);
    let y0 = bigint_to_bytes_be(&point.y0);
    let y1 = bigint_to_bytes_be(&point.y1);
    let mut out = [0u8; 128];
    write_32(&mut out, 0, &x1);
    write_32(&mut out, 32, &x0);
    write_32(&mut out, 64, &y1);
    write_32(&mut out, 96, &y0);
    assert forall|i: int| 0 <= i < 128 implies out@[i] == g2_wire(*point)[i] by {
        if i >= 96 {
            assert(out@[96 + (i - 96)] == y0@[i - 96]);
        } else if i >= 64 {
            assert(out@[64 + (i - 64)] == y1@[i - 64]);
        } else if i >= 32 {
            assert(out@[32 + (i - 32)] == x0@[i - 32]);
        }
    }
    assert(out@ =~= g2_wire(*point));
    out
}

/// Big-endian 32 bytes of a 64-bit value.
pub open spec fn u64_be32(v: u64) -> Seq<u8> {
    Seq::new(32, |i: int| if i >= 24 { limb_byte(v, 31 - i) } else { 0u8 })
}

/// Converts a proof to the verifier's wire layout: `-A` and `C` as G1 points,
/// `B` as a G2 point, and the public signals (realized output, then
/// commitment) as 32-byte big-endian numbers.
pub fn convert_proof_to_solana_proof(
    proof: &ProofPoints,
    public_inputs: &PublicProofInputs,
) -> (r: GeneratedProof)
    requires
        limbs_value(proof.a.y@) < base_field_modulus(),
    ensures
        is_negated_g1_wire(r.proof_a@, proof.a),
        r.proof_b@ == g2_wire(proof.b),
        r.proof_c@ == g1_wire(proof.c),
        r.public_signals@.len() == 2,
        r.public_signals@[0]@ == u64_be32(public_inputs.real_out),
        r.public_signals@[1]@ == spec_to_32_byte_buffer(public_inputs.commitment),
{
    let proof_a = negate_and_serialize_g1(&proof.a);
    let proof_b = g2_uncompressed(&proof.b);
    let proof_c = g1_uncompressed(&proof.c);
    let real_out = to_32_byte_buffer(&U256::from_u64(public_inputs.real_out));
    assert(real_out@ =~= u64_be32(public_inputs.real_out));
    let commitment = to_32_byte_buffer(&public_inputs.commitment);
    let public_signals = vec![real_out, commitment];
    GeneratedProof { proof_a, proof_b, proof_c, public_signals }
}

} // verus!
