//! Byte encodings of unsigned integers: little-endian values, 256-bit
//! numbers and the big-endian 32-byte form used on the wire.

use vstd::prelude::*;

verus! {

/// `256^n`.
pub open spec fn pow256(n: nat) -> nat
    decreases n,
{
    if n == 0 {
        1
    } else {
        256 * pow256((n - 1) as nat)
    }
}

/// The number whose little-endian base-256 digits are `s`.
pub open spec fn le_nat(s: Seq<u8>) -> nat
    decreases s.len(),
{
    if s.len() == 0 {
        0
    } else {
        (s[0] + 256 * le_nat(s.subrange(1, s.len() as int))) as nat
    }
}

/// No most significant zero byte, except in the one-byte encoding of zero.
pub open spec fn is_minimal(s: Seq<u8>) -> bool {
    s.len() >= 1 && (s.len() == 1 || s[s.len() - 1] != 0)
}

/// Byte `j` (least significant first) of `v`.
pub open spec fn limb_byte(v: u64, j: int) -> u8 {
    ((v as int / pow256(j as nat) as int) % 256) as u8
}

pub proof fn lemma_pow256_positive(n: nat)
    ensures
        pow256(n) >= 1,
    decreases n,
{
    if n > 0 {
        lemma_pow256_positive((n - 1) as nat);
    }
}

pub proof fn lemma_pow256_monotonic(m: nat, n: nat)
    requires
        m <= n,
    ensures
        pow256(m) <= pow256(n),
    decreases n,
{
    if m < n {
        lemma_pow256_monotonic(m, (n - 1) as nat);
        lemma_pow256_positive((n - 1) as nat);
    }
}

/// A number of `n` digits is below `256^n`.
pub proof fn lemma_le_nat_bound(s: Seq<u8>)
    ensures
        le_nat(s) < pow256(s.len()),
    decreases s.len(),
{
    if s.len() > 0 {
        let rest = s.subrange(1, s.len() as int);
        lemma_le_nat_bound(rest);
        assert(le_nat(s) < pow256(s.len()));
    }
}

/// A number whose top digit of `n` is non-zero is at least `256^(n-1)`.
pub proof fn lemma_le_nat_top_digit(s: Seq<u8>)
    requires
        s.len() >= 1,
        s[s.len() - 1] != 0,
    ensures
        le_nat(s) >= pow256((s.len() - 1) as nat),
    decreases s.len(),
{
    if s.len() > 1 {
        let rest = s.subrange(1, s.len() as int);
        assert(rest[rest.len() - 1] == s[s.len() - 1]);
        lemma_le_nat_top_digit(rest);
    }
}

/// Zero digits on top leave the number unchanged.
pub proof fn lemma_le_nat_zero_top(s: Seq<u8>, k: nat)
    requires
        k <= s.len(),
        forall|i: int| k <= i < s.len() ==> s[i] == 0,
    ensures
        le_nat(s) == le_nat(s.subrange(0, k as int)),
    decreases s.len(),
{
    if s.len() > 0 {
        let rest = s.subrange(1, s.len() as int);
        if k == 0 {
            lemma_le_nat_zero_top(rest, 0);
            assert(le_nat(rest) == le_nat(rest.subrange(0, 0)));
            assert(rest.subrange(0, 0) =~= Seq::<u8>::empty());
            assert(s.subrange(0, 0) =~= Seq::<u8>::empty());
        } else {
            lemma_le_nat_zero_top(rest, (k - 1) as nat);
            let pre = s.subrange(0, k as int);
            assert(pre.subrange(1, pre.len() as int) =~= rest.subrange(0, k - 1));
        }
    }
}

/// A minimal encoding of a number below `256^n` has at most `n` digits.
pub proof fn lemma_minimal_len(s: Seq<u8>, n: nat)
    requires
        is_minimal(s),
        le_nat(s) < pow256(n),
    ensures
        s.len() <= n || s.len() == 1,
{
    if s.len() > n && s.len() > 1 {
        lemma_le_nat_top_digit(s);
        lemma_pow256_monotonic(n, (s.len() - 1) as nat);
    }
}

/// An unsigned 256-bit number, stored as 32 little-endian bytes.
#[derive(Clone, Copy, Debug, PartialEq, Eq)]
pub struct U256 {
    pub le: [u8; 32],
}

impl U256 {
    /// The number held.
    pub open spec fn value(self) -> nat {
        le_nat(self.le@)
    }

    /// The number `v`.
    pub fn from_u64(v: u64) -> (r: U256)
        ensures
            forall|i: int| 0 <= i < 8 ==> r.le@[i] == limb_byte(v, i),
            forall|i: int| 8 <= i < 32 ==> r.le@[i] == 0,
    {
        let mut le = [0u8; 32];
        write_limb_le(&mut le, 0, v);
        U256 { le }
    }
}

/// Writes the eight little-endian bytes of `v` at `out[at..at + 8]`.
fn write_limb_le(out: &mut [u8; 32], at: usize, v: u64)
    requires
        at + 8 <= 32,
    ensures
        forall|j: int| 0 <= j < 8 ==> final(out)@[at + j] == limb_byte(v, j),
        forall|i: int| 0 <= i < 32 && !(at <= i < at + 8) ==> final(out)@[i] == old(out)@[i],
{
    let mut w: u64 = v;
    let mut j: usize = 0;
    assert(pow256(0) == 1);
    while j < 8
        invariant
            j <= 8,
            at + 8 <= 32,
            w as int == v as int / pow256(j as nat) as int,
            forall|k: int| 0 <= k < j ==> out@[at + k] == limb_byte(v, k),
            forall|i: int| 0 <= i < 32 && !(at <= i < at + j) ==> out@[i] == old(out)@[i],
        decreases 8 - j,
    {
        out[at + j] = (w % 256) as u8;
        proof {
            lemma_pow256_positive(j as nat);
            vstd::arithmetic::div_mod::lemma_div_denominator(
                v as int,
                pow256(j as nat) as int,
                256,
            );
            assert(pow256((j + 1) as nat) == 256 * pow256(j as nat));
            assert(pow256(j as nat) * 256 == 256 * pow256(j as nat)) by (nonlinear_arith);
        }
        w = w / 256;
        j = j + 1;
    }
}

/// Little-endian bytes of four 64-bit limbs, least significant limb first.
pub fn u64_array_to_u8_array_le(input: &[u64; 4]) -> (r: [u8; 32])
    ensures
        forall|i: int| 0 <= i < 32 ==> r@[i] == limb_byte(input@[i / 8], i % 8),
{
    let mut out = [0u8; 32];
    let mut i: usize = 0;
    while i < 4
        invariant
            i <= 4,
            forall|k: int| 0 <= k < 8 * i ==> out@[k] == limb_byte(input@[k / 8], k % 8),
        decreases 4 - i,
    {
        write_limb_le(&mut out, 8 * i, input[i]);
        assert forall|k: int| 0 <= k < 8 * (i + 1) implies out@[k] == limb_byte(
            input@[k / 8],
            k % 8,
        ) by {
            if k >= 8 * i {
                assert(out@[8 * i + (k - 8 * i)] == limb_byte(input@[i as int], k - 8 * i));
            }
        }
        i = i + 1;
    }
    out
}

/// Big-endian 32 bytes of a number given as 64-bit limbs, least significant
/// first.
pub open spec fn limbs_be(l: Seq<u64>) -> Seq<u8> {
    Seq::new(32, |i: int| limb_byte(l[(31 - i) / 8], (31 - i) % 8))
}

/// Big-endian bytes of four 64-bit limbs given least significant first: the
/// 32-byte wire form of a field element.
pub fn bigint_to_bytes_be(bigint: &[u64; 4]) -> (r: [u8; 32])
    ensures
        r@ == limbs_be(bigint@),
{
    let le = u64_array_to_u8_array_le(bigint);
    let r = reverse_32(&le);
    assert(r@ =~= limbs_be(bigint@));
    r
}

/// The 32 bytes in the opposite order.
pub fn reverse_32(bytes: &[u8; 32]) -> (r: [u8; 32])
    ensures
        forall|i: int| 0 <= i < 32 ==> r@[i] == bytes@[31 - i],
{
    let mut out = [0u8; 32];
    let mut i: usize = 0;
    while i < 32
        invariant
            i <= 32,
            forall|k: int| 0 <= k < i ==> out@[k] == bytes@[31 - k],
        decreases 32 - i,
    {
        out[i] = bytes[31 - i];
        i = i + 1;
    }
    out
}

/// The big-endian 32-byte form of `x`.
pub open spec fn spec_to_32_byte_buffer(x: U256) -> Seq<u8> {
    Seq::new(32, |i: int| x.le@[31 - i])
}

/// The number whose big-endian 32-byte form is `buffer`.
pub open spec fn spec_from_32_byte_buffer(buffer: Seq<u8>) -> Seq<u8> {
    Seq::new(32, |i: int| buffer[31 - i])
}

/// Encodes `big_int` as 32 big-endian bytes.
pub fn to_32_byte_buffer(big_int: &U256) -> (r: [u8; 32])
    ensures
        r@ == spec_to_32_byte_buffer(*big_int),
{
    let r = reverse_32(&big_int.le);
    assert(r@ =~= spec_to_32_byte_buffer(*big_int));
    r
}

/// Decodes 32 big-endian bytes.
pub fn from_32_byte_buffer(buffer: &[u8; 32]) -> (r: U256)
    ensures
        r.le@ == spec_from_32_byte_buffer(buffer@),
{
    let le = reverse_32(buffer);
    assert(le@ =~= spec_from_32_byte_buffer(buffer@));
    U256 { le }
}

/// Two encodings of the same length and value are the same bytes.
pub proof fn lemma_le_nat_injective(s: Seq<u8>, t: Seq<u8>)
    requires
        s.len() == t.len(),
        le_nat(s) == le_nat(t),
    ensures
        s == t,
    decreases s.len(),
{
    if s.len() > 0 {
        let rs = s.subrange(1, s.len() as int);
        let rt = t.subrange(1, t.len() as int);
        let a = le_nat(rs);
        let b = le_nat(rt);
        assert(s[0] == t[0] && a == b) by (nonlinear_arith)
            requires
                s[0] + 256 * a == t[0] + 256 * b,
                0 <= s[0] < 256,
                0 <= t[0] < 256,
                a >= 0,
                b >= 0,
        ;
        lemma_le_nat_injective(rs, rt);
        assert forall|i: int| 0 <= i < s.len() implies s[i] == t[i] by {
            if i > 0 {
                assert(s[i] == rs[i - 1]);
                assert(t[i] == rt[i - 1]);
            }
        }
    }
    assert(s =~= t);
}

} // verus!
