//! Unsigned 256-bit integers held as four little-endian 64-bit limbs.
//!
//! The arithmetic itself is done by `primitive_types`; the wrappers below
//! state what each call computes over the numeric value of the limbs.

use vstd::prelude::*;

verus! {

/// The base of one limb.
pub open spec fn limb_base() -> nat {
    0x1_0000_0000_0000_0000
}

/// Numeric value of little-endian limbs.
pub open spec fn limbs_value(s: Seq<u64>) -> nat
    decreases s.len(),
{
    if s.len() == 0 {
        0
    } else {
        s[0] as nat + limb_base() * limbs_value(s.drop_first())
    }
}

/// One more than the largest 256-bit value.
pub open spec fn u256_bound() -> nat {
    limb_base() * limb_base() * limb_base() * limb_base()
}

/// The largest 256-bit value.
pub open spec fn u256_max() -> nat {
    (u256_bound() - 1) as nat
}

/// An unsigned 256-bit integer.
#[derive(Clone, Copy, Debug, PartialEq, Eq)]
pub struct U256 {
    limbs: [u64; 4],
}

impl U256 {
    /// The numeric value.
    pub closed spec fn value(&self) -> nat {
        limbs_value(self.limbs@)
    }

    /// Every value lies below 2^256.
    pub proof fn lemma_value_bounded(&self)
        ensures
            self.value() < u256_bound(),
    {
        lemma_limbs_value_4(self.limbs@);
    }

    /// Zero.
    pub fn zero() -> (r: U256)
        ensures
            r.value() == 0,
    {
        let r = U256 { limbs: [0u64, 0u64, 0u64, 0u64] };
        proof {
            lemma_limbs_value_4(r.limbs@);
        }
        r
    }

    /// The value of a 64-bit integer.
    pub fn from_u64(n: u64) -> (r: U256)
        ensures
            r.value() == n as nat,
    {
        let r = U256 { limbs: [n, 0u64, 0u64, 0u64] };
        proof {
            lemma_limbs_value_4(r.limbs@);
        }
        r
    }

    /// The integer whose little-endian limbs are `limbs`.
    pub fn from_limbs(limbs: [u64; 4]) -> (r: U256)
        ensures
            r.value() == limbs_value(limbs@),
    {
        U256 { limbs }
    }

    /// The little-endian limbs.
    pub fn as_limbs(&self) -> (r: [u64; 4])
        ensures
            limbs_value(r@) == self.value(),
    {
        self.limbs
    }

    /// Whether the value is zero.
    pub fn is_zero(&self) -> (r: bool)
        ensures
            r == (self.value() == 0),
    {
        proof {
            lemma_limbs_value_4(self.limbs@);
        }
        self.limbs[0] == 0 && self.limbs[1] == 0 && self.limbs[2] == 0 && self.limbs[3] == 0
    }

    /// The sum, or the largest value where the sum does not fit.
    pub fn saturating_add(&self, other: &U256) -> (r: U256)
        ensures
            r.value() == vstd::math::min((self.value() + other.value()) as int, u256_max() as int),
    {
        U256 { limbs: limbs_saturating_add(self.limbs, other.limbs) }
    }
}

/// Why a checked 256-bit computation gave no value.
#[derive(Clone, Copy, Debug, PartialEq, Eq)]
pub enum ArithmeticError {
    /// The divisor was zero.
    DivisionByZero,
    /// The result does not fit in 256 bits.
    Overflow,
}

impl U256 {
    /// `self * mul / div`, rounded down, with the product taken in 512 bits.
    pub fn checked_mul_div(&self, mul: &U256, div: &U256) -> (r: Result<U256, ArithmeticError>)
        ensures
            div.value() == 0 ==> r == Err::<U256, ArithmeticError>(ArithmeticError::DivisionByZero),
            div.value() != 0 ==> {
                let q = self.value() * mul.value() / div.value();
                &&& q < u256_bound() ==> (r matches Ok(v) && v.value() == q)
                &&& q >= u256_bound() ==> r == Err::<U256, ArithmeticError>(
                    ArithmeticError::Overflow,
                )
            },
    {
        let product = limbs_full_mul(self.limbs, mul.limbs);
        let divisor = limbs_widen(div.limbs);
        match limbs_checked_div(product, divisor) {
            None => Err(ArithmeticError::DivisionByZero),
            Some(quotient) => match limbs_narrow(quotient) {
                Some(limbs) => Ok(U256 { limbs }),
                None => Err(ArithmeticError::Overflow),
            },
        }
    }
}

/// The value of four limbs, spelled out.
pub proof fn lemma_limbs_value_4(s: Seq<u64>)
    requires
        s.len() == 4,
    ensures
        limbs_value(s) == s[0] as nat + limb_base() * (s[1] as nat + limb_base() * (s[2] as nat
            + limb_base() * s[3] as nat)),
        limbs_value(s) < u256_bound(),
{
    let s1 = s.drop_first();
    let s2 = s1.drop_first();
    let s3 = s2.drop_first();
    let s4 = s3.drop_first();
    assert(s4.len() == 0);
    assert(limbs_value(s4) == 0);
    assert(limbs_value(s3) == s[3] as nat);
    assert(limbs_value(s2) == s[2] as nat + limb_base() * s[3] as nat);
    assert(limbs_value(s1) == s[1] as nat + limb_base() * (s[2] as nat + limb_base()
        * s[3] as nat));
    lemma_four_limbs_bound(s[0] as nat, s[1] as nat, s[2] as nat, s[3] as nat);
}

proof fn lemma_four_limbs_bound(a: nat, b: nat, c: nat, d: nat)
    requires
        a < limb_base(),
        b < limb_base(),
        c < limb_base(),
        d < limb_base(),
    ensures
        a + limb_base() * (b + limb_base() * (c + limb_base() * d)) < u256_bound(),
{
    let k = limb_base();
    assert(c + k * d < k * k) by (nonlinear_arith)
        requires
            c < k,
            d < k,
    ;
    assert(b + k * (c + k * d) < k * k * k) by (nonlinear_arith)
        requires
            b < k,
            c + k * d < k * k,
    ;
    assert(a + k * (b + k * (c + k * d)) < k * k * k * k) by (nonlinear_arith)
        requires
            a < k,
            b + k * (c + k * d) < k * k * k,
    ;
}

/// Relies on `primitive_types::U256::saturating_add`: the sum, or `U256::MAX`
/// where the sum overflows.
#[verifier::external_body]
fn limbs_saturating_add(a: [u64; 4], b: [u64; 4]) -> (r: [u64; 4])
    ensures
        limbs_value(r@) == vstd::math::min(
            (limbs_value(a@) + limbs_value(b@)) as int,
            u256_max() as int,
        ),
{
    primitive_types::U256(a).saturating_add(primitive_types::U256(b)).0
}

/// Relies on `primitive_types::U256::full_mul`: the exact 512-bit product.
#[verifier::external_body]
fn limbs_full_mul(a: [u64; 4], b: [u64; 4]) -> (r: [u64; 8])
    ensures
        limbs_value(r@) == limbs_value(a@) * limbs_value(b@),
{
    primitive_types::U256(a).full_mul(primitive_types::U256(b)).0
}

/// Relies on `primitive_types::U512::checked_div`: `None` for a zero divisor,
/// else the quotient rounded down.
#[verifier::external_body]
fn limbs_checked_div(a: [u64; 8], b: [u64; 8]) -> (r: Option<[u64; 8]>)
    ensures
        r is None <==> limbs_value(b@) == 0,
        r matches Some(q) ==> limbs_value(q@) == limbs_value(a@) / limbs_value(b@),
{
    primitive_types::U512(a).checked_div(primitive_types::U512(b)).map(|q| q.0)
}

/// The value of eight limbs: the low four plus 2^256 times the high four.
proof fn lemma_limbs_value_8(s: Seq<u64>)
    requires
        s.len() == 8,
    ensures
        limbs_value(s) == limbs_value(s.subrange(0, 4)) + u256_bound() * limbs_value(
            s.subrange(4, 8),
        ),
{
    let high = s.subrange(4, 8);
    let s1 = s.drop_first();
    let s2 = s1.drop_first();
    let s3 = s2.drop_first();
    let s4 = s3.drop_first();
    assert(s4 =~= high);
    lemma_limbs_value_4(s.subrange(0, 4));
    lemma_limbs_value_4(high);
    assert(limbs_value(s3) == s[3] as nat + limb_base() * limbs_value(high));
    assert(limbs_value(s2) == s[2] as nat + limb_base() * limbs_value(s3));
    assert(limbs_value(s1) == s[1] as nat + limb_base() * limbs_value(s2));
    let k = limb_base();
    let h = limbs_value(high);
    assert(s[0] as nat + k * (s[1] as nat + k * (s[2] as nat + k * (s[3] as nat + k * h)))
        == s[0] as nat + k * (s[1] as nat + k * (s[2] as nat + k * s[3] as nat)) + k * k * k * k
        * h) by (nonlinear_arith);
}

/// The same value in eight limbs.
fn limbs_widen(a: [u64; 4]) -> (r: [u64; 8])
    ensures
        limbs_value(r@) == limbs_value(a@),
{
    let r = [a[0], a[1], a[2], a[3], 0u64, 0u64, 0u64, 0u64];
    proof {
        lemma_limbs_value_8(r@);
        assert(r@.subrange(0, 4) =~= a@);
        lemma_limbs_value_4(r@.subrange(4, 8));
        assert(r@.subrange(4, 8)[0] == 0 && r@.subrange(4, 8)[1] == 0);
        assert(r@.subrange(4, 8)[2] == 0 && r@.subrange(4, 8)[3] == 0);
        assert(limbs_value(r@.subrange(4, 8)) == 0);
        assert(u256_bound() * 0 == 0);
    }
    r
}

/// The same value in four limbs, where it fits in 256 bits.
fn limbs_narrow(a: [u64; 8]) -> (r: Option<[u64; 4]>)
    ensures
        r is Some <==> limbs_value(a@) < u256_bound(),
        r matches Some(n) ==> limbs_value(n@) == limbs_value(a@),
{
    proof {
        lemma_limbs_value_8(a@);
        lemma_limbs_value_4(a@.subrange(4, 8));
        lemma_limbs_value_4(a@.subrange(0, 4));
    }
    if a[4] == 0 && a[5] == 0 && a[6] == 0 && a[7] == 0 {
        let n = [a[0], a[1], a[2], a[3]];
        proof {
            assert(n@ =~= a@.subrange(0, 4));
            assert(a@.subrange(4, 8)[0] == 0 && a@.subrange(4, 8)[1] == 0);
            assert(a@.subrange(4, 8)[2] == 0 && a@.subrange(4, 8)[3] == 0);
            assert(limbs_value(a@.subrange(4, 8)) == 0);
            assert(u256_bound() * 0 == 0);
        }
        Some(n)
    } else {
        proof {
            let h = limbs_value(a@.subrange(4, 8));
            let hs = a@.subrange(4, 8);
            assert(hs[0] == a[4] && hs[1] == a[5] && hs[2] == a[6] && hs[3] == a[7]);
            assert(h >= 1);
            assert(u256_bound() * h >= u256_bound()) by (nonlinear_arith)
                requires
                    h >= 1,
            ;
        }
        None
    }
}

} // verus!
