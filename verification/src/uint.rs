//! Unsigned 256-bit and 512-bit integers as little-endian 64-bit limbs.
//!
//! The arithmetic is done by `casper_types::U256` and `casper_types::U512`.
//! Every call into them stands behind a wrapper whose contract is stated over
//! the natural number that the limbs denote; comparisons and conversions are
//! done on the limbs here and proved against the same number.

use vstd::prelude::*;

verus! {

/// 2^64, the weight of the second limb.
#[verifier::inline]
pub open spec fn w1() -> nat {
    0x1_0000_0000_0000_0000nat
}

/// 2^128, the weight of the third limb.
#[verifier::inline]
pub open spec fn w2() -> nat {
    0x1_0000_0000_0000_0000_0000_0000_0000_0000nat
}

/// 2^192, the weight of the fourth limb.
#[verifier::inline]
pub open spec fn w3() -> nat {
    0x1_0000_0000_0000_0000_0000_0000_0000_0000_0000_0000_0000_0000nat
}

/// 2^256, the weight of the fifth limb and the least number that a `U256`
/// cannot hold.
#[verifier::inline]
pub open spec fn limit256() -> nat {
    0x1_0000_0000_0000_0000_0000_0000_0000_0000_0000_0000_0000_0000_0000_0000_0000_0000nat
}

/// 2^320, the weight of the sixth limb.
#[verifier::inline]
pub open spec fn w5() -> nat {
    0x1_0000_0000_0000_0000_0000_0000_0000_0000_0000_0000_0000_0000_0000_0000_0000_0000_0000_0000_0000_0000nat
}

/// 2^384, the weight of the seventh limb.
#[verifier::inline]
pub open spec fn w6() -> nat {
    0x1_0000_0000_0000_0000_0000_0000_0000_0000_0000_0000_0000_0000_0000_0000_0000_0000_0000_0000_0000_0000_0000_0000_0000_0000nat
}

/// 2^448, the weight of the eighth limb.
#[verifier::inline]
pub open spec fn w7() -> nat {
    0x1_0000_0000_0000_0000_0000_0000_0000_0000_0000_0000_0000_0000_0000_0000_0000_0000_0000_0000_0000_0000_0000_0000_0000_0000_0000_0000_0000_0000nat
}

/// 2^512, the least number that a `U512` cannot hold.
#[verifier::inline]
pub open spec fn limit512() -> nat {
    0x1_0000_0000_0000_0000_0000_0000_0000_0000_0000_0000_0000_0000_0000_0000_0000_0000_0000_0000_0000_0000_0000_0000_0000_0000_0000_0000_0000_0000_0000_0000_0000_0000nat
}

/// The number denoted by four little-endian limbs.
pub open spec fn limbs4_value(l: [u64; 4]) -> nat {
    l[0] as nat + l[1] as nat * w1() + l[2] as nat * w2() + l[3] as nat * w3()
}

/// The number denoted by eight little-endian limbs.
pub open spec fn limbs8_value(l: [u64; 8]) -> nat {
    l[0] as nat + l[1] as nat * w1() + l[2] as nat * w2() + l[3] as nat * w3() + l[4] as nat
        * limit256() + l[5] as nat * w5() + l[6] as nat * w6() + l[7] as nat * w7()
}

/// An unsigned 256-bit integer.
#[derive(Clone, Copy, Debug, PartialEq, Eq)]
pub struct U256 {
    /// The four 64-bit limbs, least significant first.
    pub limbs: [u64; 4],
}

/// An unsigned 512-bit integer, wide enough for the product of two `U256`.
#[derive(Clone, Copy, Debug, PartialEq, Eq)]
pub struct U512 {
    /// The eight 64-bit limbs, least significant first.
    pub limbs: [u64; 8],
}

impl View for U256 {
    type V = nat;

    open spec fn view(&self) -> nat {
        limbs4_value(self.limbs)
    }
}

impl View for U512 {
    type V = nat;

    open spec fn view(&self) -> nat {
        limbs8_value(self.limbs)
    }
}

/// Every `U256` is below 2^256.
pub broadcast proof fn lemma_u256_bound(a: U256)
    ensures
        #[trigger] a@ < limit256(),
{
}

/// The product of two numbers below 2^256 is below 2^512.
pub proof fn lemma_product_fits(a: nat, b: nat)
    requires
        a < limit256(),
        b < limit256(),
    ensures
        a * b < limit512(),
{
    assert(a * b <= (limit256() - 1) * (limit256() - 1)) by (nonlinear_arith)
        requires
            a <= limit256() - 1,
            b <= limit256() - 1,
    ;
}

impl U256 {
    /// Calls `casper_types::U256::checked_add`: the sum where it is below
    /// 2^256, `None` where it is not.
    #[verifier::external_body]
    pub(crate) fn checked_add(self, other: U256) -> (r: Option<U256>)
        ensures
            match r {
                Some(s) => s@ == self@ + other@,
                None => self@ + other@ >= limit256(),
            },
    {
        match casper_types::U256(self.limbs).checked_add(casper_types::U256(other.limbs)) {
            Some(s) => Some(U256 { limbs: s.0 }),
            None => None,
        }
    }

    /// Calls `casper_types::U256::checked_sub`: the difference where
    /// `other` is not the greater, `None` where it is.
    #[verifier::external_body]
    pub(crate) fn checked_sub(self, other: U256) -> (r: Option<U256>)
        ensures
            match r {
                Some(d) => d@ == self@ - other@,
                None => self@ < other@,
            },
    {
        match casper_types::U256(self.limbs).checked_sub(casper_types::U256(other.limbs)) {
            Some(d) => Some(U256 { limbs: d.0 }),
            None => None,
        }
    }

    /// Calls `casper_types::U256::checked_div`: the quotient rounded down,
    /// `None` where the divisor is zero.
    #[verifier::external_body]
    pub(crate) fn checked_div(self, other: U256) -> (r: Option<U256>)
        ensures
            match r {
                Some(q) => other@ != 0 && q@ == self@ / other@,
                None => other@ == 0,
            },
    {
        match casper_types::U256(self.limbs).checked_div(casper_types::U256(other.limbs)) {
            Some(q) => Some(U256 { limbs: q.0 }),
            None => None,
        }
    }

    /// Zero.
    pub fn zero() -> (r: Self)
        ensures
            r@ == 0,
    {
        U256 { limbs: [0, 0, 0, 0] }
    }

    /// The 256-bit integer equal to `value`.
    pub fn from_u64(value: u64) -> (r: Self)
        ensures
            r@ == value,
    {
        U256 { limbs: [value, 0, 0, 0] }
    }

    /// The 256-bit integer equal to `value`.
    pub fn from_u128(value: u128) -> (r: Self)
        ensures
            r@ == value,
    {
        let low: u64 = (value & 0xffff_ffff_ffff_ffff) as u64;
        let high: u64 = (value >> 64) as u64;
        assert(value == (value & 0xffff_ffff_ffff_ffff) + (value >> 64) * 0x1_0000_0000_0000_0000)
            by (bit_vector);
        assert((value & 0xffff_ffff_ffff_ffff) <= 0xffff_ffff_ffff_ffff) by (bit_vector);
        assert((value >> 64) <= 0xffff_ffff_ffff_ffff) by (bit_vector);
        U256 { limbs: [low, high, 0, 0] }
    }

    /// The value as a `u128`, or `None` where it is 2^128 or more.
    pub fn to_u128(self) -> (r: Option<u128>)
        ensures
            match r {
                Some(v) => v == self@,
                None => self@ >= w2(),
            },
    {
        if self.limbs[2] != 0 || self.limbs[3] != 0 {
            None
        } else {
            let low: u128 = self.limbs[0] as u128;
            let high: u128 = self.limbs[1] as u128;
            Some(low + high * 0x1_0000_0000_0000_0000)
        }
    }

    /// Whether the value is zero.
    pub fn is_zero(self) -> (r: bool)
        ensures
            r == (self@ == 0),
    {
        self.limbs[0] == 0 && self.limbs[1] == 0 && self.limbs[2] == 0 && self.limbs[3] == 0
    }

    /// Whether `self` is less than `other`.
    pub fn lt(self, other: U256) -> (r: bool)
        ensures
            r == (self@ < other@),
    {
        if self.limbs[3] != other.limbs[3] {
            self.limbs[3] < other.limbs[3]
        } else if self.limbs[2] != other.limbs[2] {
            self.limbs[2] < other.limbs[2]
        } else if self.limbs[1] != other.limbs[1] {
            self.limbs[1] < other.limbs[1]
        } else {
            self.limbs[0] < other.limbs[0]
        }
    }

    /// Whether `self` is at most `other`.
    pub fn le(self, other: U256) -> (r: bool)
        ensures
            r == (self@ <= other@),
    {
        !other.lt(self)
    }

    /// The lesser of the two.
    pub fn min(self, other: U256) -> (r: U256)
        ensures
            r@ == if self@ <= other@ { self@ } else { other@ },
            r == self || r == other,
    {
        if other.lt(self) {
            other
        } else {
            self
        }
    }

    /// The same number in 512 bits.
    pub fn widen(self) -> (r: U512)
        ensures
            r@ == self@,
    {
        U512 {
            limbs: [self.limbs[0], self.limbs[1], self.limbs[2], self.limbs[3], 0, 0, 0, 0],
        }
    }

    /// `self * factor / divisor` rounded down, with the product taken in
    /// full; `None` where the divisor is zero.
    pub fn mul_div(self, factor: U256, divisor: U256) -> (r: Option<U512>)
        ensures
            match r {
                Some(q) => divisor@ != 0 && q@ == (self@ * factor@) / divisor@,
                None => divisor@ == 0,
            },
    {
        proof {
            lemma_product_fits(self@, factor@);
        }
        let product = self.widen().checked_mul(factor.widen());
        product.unwrap().checked_div(divisor.widen())
    }
}

impl From<u64> for U256 {
    fn from(value: u64) -> (r: U256) {
        U256 { limbs: [value, 0, 0, 0] }
    }
}

impl vstd::std_specs::convert::FromSpecImpl<u64> for U256 {
    open spec fn obeys_from_spec() -> bool {
        true
    }

    open spec fn from_spec(value: u64) -> U256 {
        U256 { limbs: [value, 0, 0, 0] }
    }
}

impl U512 {
    /// Calls `casper_types::U512::checked_add`: the sum where it is below
    /// 2^512, `None` where it is not.
    #[verifier::external_body]
    pub(crate) fn checked_add(self, other: U512) -> (r: Option<U512>)
        ensures
            match r {
                Some(s) => s@ == self@ + other@,
                None => self@ + other@ >= limit512(),
            },
    {
        match casper_types::U512(self.limbs).checked_add(casper_types::U512(other.limbs)) {
            Some(s) => Some(U512 { limbs: s.0 }),
            None => None,
        }
    }

    /// Calls `casper_types::U512::checked_sub`: the difference where
    /// `other` is not the greater, `None` where it is.
    #[verifier::external_body]
    pub(crate) fn checked_sub(self, other: U512) -> (r: Option<U512>)
        ensures
            match r {
                Some(d) => d@ == self@ - other@,
                None => self@ < other@,
            },
    {
        match casper_types::U512(self.limbs).checked_sub(casper_types::U512(other.limbs)) {
            Some(d) => Some(U512 { limbs: d.0 }),
            None => None,
        }
    }

    /// Calls `casper_types::U512::checked_mul`: the product where it is
    /// below 2^512, `None` where it is not.
    #[verifier::external_body]
    pub(crate) fn checked_mul(self, other: U512) -> (r: Option<U512>)
        ensures
            match r {
                Some(p) => p@ == self@ * other@,
                None => self@ * other@ >= limit512(),
            },
    {
        match casper_types::U512(self.limbs).checked_mul(casper_types::U512(other.limbs)) {
            Some(p) => Some(U512 { limbs: p.0 }),
            None => None,
        }
    }

    /// Calls `casper_types::U512::checked_div`: the quotient rounded down,
    /// `None` where the divisor is zero.
    #[verifier::external_body]
    pub(crate) fn checked_div(self, other: U512) -> (r: Option<U512>)
        ensures
            match r {
                Some(q) => other@ != 0 && q@ == self@ / other@,
                None => other@ == 0,
            },
    {
        match casper_types::U512(self.limbs).checked_div(casper_types::U512(other.limbs)) {
            Some(q) => Some(U512 { limbs: q.0 }),
            None => None,
        }
    }

    /// Zero.
    pub fn zero() -> (r: Self)
        ensures
            r@ == 0,
    {
        U512 { limbs: [0, 0, 0, 0, 0, 0, 0, 0] }
    }

    /// The 512-bit integer equal to `value`.
    pub fn from_u64(value: u64) -> (r: Self)
        ensures
            r@ == value,
    {
        U512 { limbs: [value, 0, 0, 0, 0, 0, 0, 0] }
    }

    /// The same number in 256 bits, or `None` where it is 2^256 or more.
    pub fn narrow(self) -> (r: Option<U256>)
        ensures
            match r {
                Some(n) => n@ == self@,
                None => self@ >= limit256(),
            },
    {
        if self.limbs[4] != 0 || self.limbs[5] != 0 || self.limbs[6] != 0 || self.limbs[7] != 0 {
            None
        } else {
            Some(U256 { limbs: [self.limbs[0], self.limbs[1], self.limbs[2], self.limbs[3]] })
        }
    }
}

} // verus!
