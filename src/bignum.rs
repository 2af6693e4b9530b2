//! Arbitrary-precision natural numbers held as big-endian bytes, and modular
//! exponentiation over them. The arithmetic itself is done by `num`'s
//! `BigUint`; this module keeps the numbers as plain bytes so that their value
//! can be stated and reasoned about.

use num::bigint::BigUint;
use vstd::arithmetic::div_mod::*;
use vstd::arithmetic::mul::*;
use vstd::arithmetic::power::*;
use vstd::prelude::*;
use vstd::slice::slice_to_vec;

verus! {

/// The value of a big-endian byte string.
pub open spec fn be_nat(s: Seq<u8>) -> nat
    decreases s.len(),
{
    if s.len() == 0 {
        0
    } else {
        be_nat(s.drop_last()) * 256 + s.last() as nat
    }
}

/// The big-endian encoding of `n` in exactly `width` bytes (the high bytes of
/// `n` that do not fit are dropped).
pub open spec fn nat_to_be(n: nat, width: nat) -> Seq<u8>
    decreases width,
{
    if width == 0 {
        Seq::empty()
    } else {
        nat_to_be(n / 256, (width - 1) as nat).push((n % 256) as u8)
    }
}

/// A natural number of any size.
pub struct BigNum {
    bytes: Vec<u8>,
}

impl View for BigNum {
    type V = nat;

    closed spec fn view(&self) -> nat {
        be_nat(self.bytes@)
    }
}

pub proof fn lemma_be_nat_bound(s: Seq<u8>)
    ensures
        be_nat(s) < pow(256, s.len()),
    decreases s.len(),
{
    reveal(pow);
    if s.len() > 0 {
        lemma_be_nat_bound(s.drop_last());
        let p = pow(256, (s.len() - 1) as nat);
        assert(be_nat(s.drop_last()) + 1 <= p);
        lemma_mul_inequality(be_nat(s.drop_last()) + 1 as int, p, 256);
        assert(pow(256, s.len()) == 256 * p);
    }
}

proof fn lemma_be_nat_append(a: Seq<u8>, b: Seq<u8>)
    ensures
        be_nat(a + b) == be_nat(a) * pow(256, b.len()) + be_nat(b),
    decreases b.len(),
{
    reveal(pow);
    if b.len() == 0 {
        assert(a + b =~= a);
    } else {
        let b1 = b.drop_last();
        assert((a + b).drop_last() =~= a + b1);
        assert((a + b).last() == b.last());
        assert(be_nat(a + b) == be_nat(a + b1) * 256 + b.last() as nat);
        assert(be_nat(b) == be_nat(b1) * 256 + b.last() as nat);
        lemma_be_nat_append(a, b1);
        let p = pow(256, (b.len() - 1) as nat);
        assert(pow(256, b.len()) == 256 * p);
        assert((be_nat(a) * p + be_nat(b.drop_last())) * 256 == be_nat(a) * (256 * p) + be_nat(
            b.drop_last(),
        ) * 256) by (nonlinear_arith);
    }
}

proof fn lemma_be_nat_zeros(n: nat)
    ensures
        be_nat(Seq::new(n, |i: int| 0u8)) == 0,
    decreases n,
{
    if n > 0 {
        assert(Seq::new(n, |i: int| 0u8).drop_last() =~= Seq::new((n - 1) as nat, |i: int| 0u8));
        lemma_be_nat_zeros((n - 1) as nat);
    }
}

/// A fixed-width big-endian encoding is unique.
pub proof fn lemma_nat_to_be_unique(s: Seq<u8>)
    ensures
        s == nat_to_be(be_nat(s), s.len()),
    decreases s.len(),
{
    if s.len() > 0 {
        let n = be_nat(s);
        let p = s.drop_last();
        lemma_fundamental_div_mod_converse(n as int, 256, be_nat(p) as int, s.last() as int);
        lemma_nat_to_be_unique(p);
        assert(s =~= p.push(s.last()));
    }
}

proof fn lemma_be_nat_parity(s: Seq<u8>)
    requires
        s.len() > 0,
    ensures
        be_nat(s) % 2 == s.last() as nat % 2,
{
    let q = be_nat(s.drop_last());
    let l = s.last() as nat;
    assert((q * 256 + l) % 2 == l % 2) by {
        lemma_fundamental_div_mod(l as int, 2);
        assert(q * 256 + l == (q * 128 + l / 2) * 2 + l % 2) by (nonlinear_arith)
            requires
                l == (l / 2) * 2 + l % 2,
        ;
        lemma_fundamental_div_mod_converse(
            (q * 256 + l) as int,
            2,
            (q * 128 + l / 2) as int,
            (l % 2) as int,
        );
    }
}

proof fn lemma_be_nat_zero_iff(s: Seq<u8>)
    ensures
        be_nat(s) == 0 <==> forall|i: int| 0 <= i < s.len() ==> s[i] == 0,
    decreases s.len(),
{
    if s.len() > 0 {
        lemma_be_nat_zero_iff(s.drop_last());
        if be_nat(s) == 0 {
            assert forall|i: int| 0 <= i < s.len() implies s[i] == 0 by {
                if i < s.len() - 1 {
                    assert(s[i] == s.drop_last()[i]);
                }
            }
        }
        if forall|i: int| 0 <= i < s.len() ==> s[i] == 0 {
            assert forall|i: int| 0 <= i < s.drop_last().len() implies s.drop_last()[i] == 0 by {
                assert(s[i] == 0);
            }
            assert(s[s.len() - 1] == 0);
        }
    }
}

/// One round of square-and-multiply keeps `r * base^e` unchanged modulo `m`.
proof fn lemma_square_multiply_step(r: int, b: int, e: nat, m: int)
    requires
        m > 0,
    ensures
        e % 2 == 1 ==> ((r * b) % m) * pow((b * b) % m, e / 2) % m == (r * pow(b, e)) % m,
        e % 2 == 0 ==> (r * pow((b * b) % m, e / 2)) % m == (r * pow(b, e)) % m,
{
    let k = e / 2;
    let x = pow((b * b) % m, k);
    lemma_pow_mod_noop(b * b, k, m);
    lemma_square_is_pow2(b);
    lemma_pow_multiplies(b, 2, k);
    assert(pow(b * b, k) == pow(b, 2 * k));
    // for c = r and c = r * b: c * x is c * b^(2k) modulo m
    let c = if e % 2 == 1 { r * b } else { r };
    lemma_mul_mod_noop_right(c, x, m);
    lemma_mul_mod_noop_right(c, pow(b * b, k), m);
    assert((c * x) % m == (c * pow(b, 2 * k)) % m);
    if e % 2 == 1 {
        lemma_mul_mod_noop_left(r * b, x, m);
        assert(((r * b) * x) % m == ((r * b) * pow(b, 2 * k)) % m);
        assert(e == 2 * k + 1);
        lemma_pow_adds(b, 2 * k, 1);
        lemma_pow1(b);
        assert(pow(b, e) == pow(b, 2 * k) * b);
        assert((r * b) * pow(b, 2 * k) == r * (pow(b, 2 * k) * b)) by (nonlinear_arith);
    } else {
        assert(e == 2 * k);
    }
}

/// Relies on `BigUint::from_bytes_be`, `Mul` and `BigUint::to_bytes_be`: the
/// product of two naturals.
#[verifier::external_body]
fn big_mul(a: &BigNum, b: &BigNum) -> (r: BigNum)
    ensures
        r@ == a@ * b@,
{
    let p = BigUint::from_bytes_be(&a.bytes) * BigUint::from_bytes_be(&b.bytes);
    BigNum { bytes: p.to_bytes_be() }
}

/// Relies on `BigUint::from_bytes_be`, `Rem` and `BigUint::to_bytes_be`: the
/// remainder of a division, which panics on a zero divisor.
#[verifier::external_body]
fn big_rem(a: &BigNum, m: &BigNum) -> (r: BigNum)
    requires
        m@ > 0,
    ensures
        r@ == a@ % m@,
{
    let q = BigUint::from_bytes_be(&a.bytes) % BigUint::from_bytes_be(&m.bytes);
    BigNum { bytes: q.to_bytes_be() }
}

/// Relies on `BigUint::from_bytes_be`, `Shr` by one bit and
/// `BigUint::to_bytes_be`: halving, rounded down.
#[verifier::external_body]
fn big_shr1(a: &BigNum) -> (r: BigNum)
    ensures
        r@ == a@ / 2,
{
    let h = BigUint::from_bytes_be(&a.bytes) >> 1u32;
    BigNum { bytes: h.to_bytes_be() }
}

impl BigNum {
    /// The number whose big-endian encoding is `bytes`; leading zeros are allowed.
    pub fn from_bytes_be(bytes: &[u8]) -> (r: BigNum)
        ensures
            r@ == be_nat(bytes@),
    {
        BigNum { bytes: slice_to_vec(bytes) }
    }

    pub fn from_u8(v: u8) -> (r: BigNum)
        ensures
            r@ == v as nat,
    {
        let mut bytes: Vec<u8> = Vec::new();
        bytes.push(v);
        proof {
            assert(bytes@.drop_last() =~= Seq::<u8>::empty());
            assert(be_nat(Seq::<u8>::empty()) == 0);
            assert(be_nat(bytes@) == v as nat);
        }
        BigNum { bytes }
    }

    /// A big-endian encoding of the number (of no fixed width).
    pub fn to_bytes_be(&self) -> (r: Vec<u8>)
        ensures
            be_nat(r@) == self@,
    {
        self.bytes.clone()
    }

    pub fn copy(&self) -> (r: BigNum)
        ensures
            r@ == self@,
    {
        BigNum { bytes: self.bytes.clone() }
    }

    pub fn is_zero(&self) -> (r: bool)
        ensures
            r == (self@ == 0),
    {
        let mut i: usize = 0;
        while i < self.bytes.len()
            invariant
                i <= self.bytes@.len(),
                forall|j: int| 0 <= j < i ==> self.bytes@[j] == 0,
            decreases self.bytes@.len() - i,
        {
            if self.bytes[i] != 0 {
                proof {
                    lemma_be_nat_zero_iff(self.bytes@);
                }
                assert(self.bytes@[i as int] != 0);
                return false;
            }
            i = i + 1;
        }
        proof {
            lemma_be_nat_zero_iff(self.bytes@);
        }
        true
    }

    pub fn is_odd(&self) -> (r: bool)
        ensures
            r == (self@ % 2 == 1),
    {
        let n = self.bytes.len();
        if n == 0 {
            false
        } else {
            proof {
                lemma_be_nat_parity(self.bytes@);
            }
            self.bytes[n - 1] % 2 == 1
        }
    }

    /// The number as exactly `width` big-endian bytes, zero-padded on the left.
    pub fn to_bytes_be_padded(&self, width: usize) -> (r: Vec<u8>)
        requires
            self@ < pow(256, width as nat),
        ensures
            r@ == nat_to_be(self@, width as nat),
    {
        let n = self.bytes.len();
        let mut out: Vec<u8> = Vec::new();
        if n >= width {
            let start = n - width;
            let mut i = start;
            while i < n
                invariant
                    start <= i <= n,
                    n == self.bytes@.len(),
                    out@ =~= self.bytes@.subrange(start as int, i as int),
                decreases n - i,
            {
                out.push(self.bytes[i]);
                i = i + 1;
            }
            proof {
                let pre = self.bytes@.subrange(0, start as int);
                assert(self.bytes@ =~= pre + out@);
                lemma_be_nat_append(pre, out@);
                let p = pow(256, width as nat);
                if be_nat(pre) > 0 {
                    lemma_mul_inequality(1, be_nat(pre) as int, p);
                    assert(be_nat(self.bytes@) >= p);
                }
                assert(be_nat(pre) == 0);
                lemma_mul_basics(p);
                assert(be_nat(out@) == self@);
                lemma_nat_to_be_unique(out@);
            }
        } else {
            let pad = width - n;
            let mut i: usize = 0;
            while i < pad
                invariant
                    i <= pad,
                    out@ =~= Seq::new(i as nat, |k: int| 0u8),
                decreases pad - i,
            {
                out.push(0);
                i = i + 1;
            }
            let ghost zeros = out@;
            let mut j: usize = 0;
            while j < n
                invariant
                    j <= n,
                    n == self.bytes@.len(),
                    out@ =~= zeros + self.bytes@.subrange(0, j as int),
                decreases n - j,
            {
                out.push(self.bytes[j]);
                j = j + 1;
            }
            proof {
                assert(self.bytes@.subrange(0, n as int) =~= self.bytes@);
                lemma_be_nat_append(zeros, self.bytes@);
                lemma_be_nat_zeros(pad as nat);
                assert(be_nat(zeros) == 0);
                lemma_mul_basics(pow(256, self.bytes@.len()));
                assert(out@ =~= zeros + self.bytes@);
                assert(be_nat(out@) == self@);
                lemma_nat_to_be_unique(out@);
            }
        }
        out
    }
}

/// `base` to the power `exp`, modulo `modulus`, by square-and-multiply.
pub fn powm(base: &BigNum, exp: &BigNum, modulus: &BigNum) -> (r: BigNum)
    requires
        modulus@ > 0,
    ensures
        r@ == pow(base@ as int, exp@) % (modulus@ as int),
{
    let ghost m = modulus@ as int;
    let ghost b0 = base@ as int;
    let ghost e0 = exp@;
    let mut base = base.copy();
    let mut exp = exp.copy();
    let mut result = big_rem(&BigNum::from_u8(1), modulus);
    proof {
        lemma_pow0(base@ as int);
        lemma_mul_mod_noop_left(1, pow(b0, e0), m);
    }
    while !exp.is_zero()
        invariant
            m == modulus@ > 0,
            result@ < m,
            pow(b0, e0) % m == (result@ * pow(base@ as int, exp@)) % m,
        decreases exp@,
    {
        proof {
            lemma_square_multiply_step(result@ as int, base@ as int, exp@, m);
        }
        if exp.is_odd() {
            result = big_rem(&big_mul(&result, &base), modulus);
        }
        exp = big_shr1(&exp);
        base = big_rem(&big_mul(&base, &base), modulus);
    }
    proof {
        lemma_pow0(base@ as int);
        lemma_small_mod(result@, m as nat);
    }
    result
}

} // verus!
