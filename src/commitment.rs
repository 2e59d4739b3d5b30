//! Commitments to a trader's private minimum output: a Poseidon hash of the
//! threshold and a salt, brought from Montgomery form to a canonical element
//! of the BN254 scalar field.

use vstd::prelude::*;
use crate::account::u64_at;
use crate::encoding::{
    is_minimal, le_nat, lemma_le_nat_bound, lemma_le_nat_zero_top, lemma_minimal_len, limb_byte,
    lemma_le_nat_injective, spec_from_32_byte_buffer, spec_to_32_byte_buffer,
    to_32_byte_buffer, u64_array_to_u8_array_le, U256,
};
use ark_bn254::Fr;
use light_poseidon::{Poseidon, PoseidonHasher};
use num_bigint::BigUint;
use password_hash::rand_core::{OsRng, RngCore};

verus! {

/// Order of the BN254 scalar field,
/// 21888242871839275222246405745257275088548364400416034343698204186575808495617,
/// little-endian.
pub const FIELD_MODULUS_LE: [u8; 32] = [
    1, 0, 0, 240, 147, 245, 225, 67, 145, 112, 185, 121, 72, 232, 51, 40, 93, 88, 129, 129, 182,
    69, 80, 184, 41, 160, 49, 225, 114, 78, 100, 48,
];

/// Inverse of the Montgomery radix 2^256 modulo the scalar field order,
/// 9915499612839321149637521777990102151350674507940716049588462388200839649614,
/// little-endian.
pub const MONTGOMERY_R_INV_LE: [u8; 32] = [
    78, 25, 177, 109, 5, 160, 91, 220, 135, 236, 17, 225, 169, 245, 14, 9, 93, 93, 184, 174, 228,
    13, 38, 200, 28, 85, 197, 130, 81, 249, 235, 21,
];

/// Order of the BN254 scalar field.
pub open spec fn field_modulus() -> nat {
    le_nat(FIELD_MODULUS_LE@)
}

/// Inverse of 2^256 modulo the scalar field order.
pub open spec fn montgomery_r_inv() -> nat {
    le_nat(MONTGOMERY_R_INV_LE@)
}

/// The canonical field element whose Montgomery form has the value `v`.
pub open spec fn from_montgomery(v: nat) -> nat {
    (v * montgomery_r_inv()) % field_modulus()
}

/// The 64-bit limbs, least significant first, of the Montgomery form of the
/// circom-compatible Poseidon hash of the two field elements `a` and `b`.
pub uninterp spec fn poseidon_hash_limbs(a: u64, b: u64) -> Seq<u64>;

/// Relies on light_poseidon's `Poseidon::<Fr>::new_circom(2)` and its `hash`
/// over BN254 (the circomlib parameters): the result depends on the two inputs
/// alone. The limbs are ark_ff's internal (Montgomery) representation.
#[verifier::external_body]
fn poseidon_hash(a: u64, b: u64) -> (r: [u64; 4])
    ensures
        r@ == poseidon_hash_limbs(a, b),
{
    let mut hasher = Poseidon::<Fr>::new_circom(2).unwrap();
    let out = hasher.hash(&[Fr::from(a), Fr::from(b)]).unwrap();
    out.0.0
}

/// Relies on num_bigint's `Mul` for `BigUint`, with `from_bytes_le` and
/// `to_bytes_le` to read and write little-endian digits (minimal, and `[0]`
/// for zero).
#[verifier::external_body]
fn big_mul(a: &[u8], b: &[u8]) -> (r: Vec<u8>)
    ensures
        le_nat(r@) == le_nat(a@) * le_nat(b@),
        is_minimal(r@),
{
    (BigUint::from_bytes_le(a) * BigUint::from_bytes_le(b)).to_bytes_le()
}

/// Relies on num_bigint's `Rem` for `BigUint` (which panics on a zero
/// divisor), with `from_bytes_le` and `to_bytes_le` as for `big_mul`.
#[verifier::external_body]
fn big_rem(a: &[u8], m: &[u8]) -> (r: Vec<u8>)
    requires
        le_nat(m@) > 0,
    ensures
        le_nat(r@) == le_nat(a@) % le_nat(m@),
        is_minimal(r@),
{
    (BigUint::from_bytes_le(a) % BigUint::from_bytes_le(m)).to_bytes_le()
}

/// The salt bytes read as a little-endian 64-bit number.
pub fn salt_to_u64(salt: &[u8; 8]) -> (r: u64)
    ensures
        r == le_nat(salt@),
{
    let r = u64_at(salt, 0);
    assert(salt@.subrange(0, 8) =~= salt@);
    r
}

/// Poseidon hash limbs (Montgomery form) of the threshold and the salt read as
/// a little-endian number.
pub fn compute_poseidon_hash_with_salt(min_out: u64, salt: [u8; 8]) -> (r: [u64; 4])
    ensures
        r@ == poseidon_hash_limbs(min_out, le_nat(salt@) as u64),
{
    let salt_u64 = salt_to_u64(&salt);
    poseidon_hash(min_out, salt_u64)
}

/// Relies on rand_core's `OsRng::try_fill_bytes` (as password_hash re-exports
/// it): eight bytes from the operating system's generator, or none when it
/// reports an error. Nothing is known of the bytes.
#[verifier::external_body]
fn os_random_salt() -> (r: Option<[u8; 8]>) {
    let mut salt = [0u8; 8];
    match OsRng.try_fill_bytes(&mut salt) {
        Ok(()) => Some(salt),
        Err(_) => None,
    }
}

/// A fresh random salt, or `None` when the system generator fails.
pub fn generate_random_salt() -> (r: Option<[u8; 8]>) {
    os_random_salt()
}

/// Poseidon hash limbs of the threshold under a fresh random salt; `None`
/// when no salt could be drawn.
pub fn compute_poseidon_hash(min_out: u64) -> (r: Option<[u64; 4]>)
    ensures
        r matches Some(h) ==> exists|salt: Seq<u8>|
            salt.len() == 8 && #[trigger] poseidon_hash_limbs(min_out, le_nat(salt) as u64) == h@,
{
    match os_random_salt() {
        Some(salt) => {
            let h = compute_poseidon_hash_with_salt(min_out, salt);
            assert(poseidon_hash_limbs(min_out, le_nat(salt@) as u64) == h@);
            Some(h)
        },
        None => None,
    }
}

/// The field element whose Montgomery form has the little-endian bytes
/// `bytes`: `bytes * R^-1 mod p`.
pub fn bytes_to_bigint(bytes: &[u8; 32]) -> (r: U256)
    ensures
        r.value() == from_montgomery(le_nat(bytes@)),
{
    proof {
        let m = FIELD_MODULUS_LE@;
        assert(le_nat(m) >= m[0]);
        lemma_le_nat_bound(m);
    }
    let product = big_mul(bytes, &MONTGOMERY_R_INV_LE);
    let rem = big_rem(&product, &FIELD_MODULUS_LE);
    proof {
        lemma_minimal_len(rem@, 32);
    }
    let mut le = [0u8; 32];
    let mut i: usize = 0;
    while i < rem.len()
        invariant
            rem@.len() <= 32,
            i <= rem@.len(),
            forall|k: int| 0 <= k < i ==> le@[k] == rem@[k],
            forall|k: int| i <= k < 32 ==> le@[k] == 0,
        decreases rem.len() - i,
    {
        le[i] = rem[i];
        i = i + 1;
    }
    proof {
        lemma_le_nat_zero_top(le@, rem@.len());
        assert(le@.subrange(0, rem@.len() as int) =~= rem@);
    }
    U256 { le }
}

/// The value a commitment to `threshold` and `salt` encodes.
pub open spec fn commitment_value(threshold: u64, salt: Seq<u8>) -> nat {
    let limbs = poseidon_hash_limbs(threshold, le_nat(salt) as u64);
    from_montgomery(le_nat(Seq::new(32, |i: int| limb_byte(limbs[i / 8], i % 8))))
}

/// The number whose big-endian base-256 digits are `s`.
pub open spec fn be_nat(s: Seq<u8>) -> nat {
    le_nat(Seq::new(s.len(), |i: int| s[s.len() - 1 - i]))
}

/// `r` is a commitment to `threshold` and `salt`: the 32-byte big-endian
/// encoding of `commitment_value`.
pub open spec fn commits_to(r: Seq<u8>, threshold: u64, salt: Seq<u8>) -> bool {
    r.len() == 32 && be_nat(r) == commitment_value(threshold, salt)
}

/// Commits to a private `threshold` with a `salt`.
pub fn commit(threshold: u64, salt: [u8; 8]) -> (r: [u8; 32])
    ensures
        commits_to(r@, threshold, salt@),
{
    let limbs = compute_poseidon_hash_with_salt(threshold, salt);
    let bytes = u64_array_to_u8_array_le(&limbs);
    assert(bytes@ =~= Seq::new(32, |i: int| limb_byte(limbs@[i / 8], i % 8)));
    let element = bytes_to_bigint(&bytes);
    let r = to_32_byte_buffer(&element);
    assert(Seq::new(32, |i: int| r@[32 - 1 - i]) =~= element.le@);
    r
}

/// Committing is deterministic: any two commitments to the same threshold and
/// salt are the same bytes.
pub proof fn lemma_commit_deterministic(threshold: u64, salt: Seq<u8>, a: Seq<u8>, b: Seq<u8>)
    requires
        commits_to(a, threshold, salt),
        commits_to(b, threshold, salt),
    ensures
        a == b,
{
    let ra = Seq::new(a.len(), |i: int| a[a.len() - 1 - i]);
    let rb = Seq::new(b.len(), |i: int| b[b.len() - 1 - i]);
    lemma_le_nat_injective(ra, rb);
    assert forall|i: int| 0 <= i < 32 implies a[i] == b[i] by {
        assert(a[i] == ra[31 - i]);
        assert(b[i] == rb[31 - i]);
    }
    assert(a =~= b);
}

/// Decoding the 32-byte wire form of a field element gives the element back.
pub proof fn lemma_field_bytes_round_trip(x: U256)
    requires
        x.value() < field_modulus(),
    ensures
        spec_from_32_byte_buffer(spec_to_32_byte_buffer(x)) == x.le@,
{
    assert(spec_from_32_byte_buffer(spec_to_32_byte_buffer(x)) =~= x.le@);
}

} // verus!
