//! The unsigned integer types that ciphertext elements can be made of.
use vstd::prelude::*;
use vstd::arithmetic::power2::{lemma2_to64, pow2};

verus! {

/// `2^128` is one more than the largest `u128`.
pub proof fn lemma_pow2_128()
    ensures
        pow2(128) == u128::MAX + 1,
{
    lemma2_to64();
    vstd::arithmetic::power2::lemma_pow2_adds(64, 64);
}

/// `2^e` as a `u128`, for `e < 128`.
pub fn pow2_u128(e: u32) -> (p: u128)
    requires
        e < 128,
    ensures
        p == pow2(e as nat),
{
    let mut p: u128 = 1;
    let mut i: u32 = 0;
    proof {
        lemma2_to64();
    }
    while i < e
        invariant
            i <= e < 128,
            p == pow2(i as nat),
        decreases e - i,
    {
        proof {
            vstd::arithmetic::power2::lemma_pow2_unfold((i + 1) as nat);
            vstd::arithmetic::power2::lemma_pow2_strictly_increases((i + 1) as nat, 128);
            lemma_pow2_128();
        }
        p = p * 2;
        i = i + 1;
    }
    p
}

/// An unsigned machine integer, known to the specifications by its width in bits.
pub trait UnsignedInteger: Copy + core::fmt::Debug + PartialEq + Eq {
    /// Width of the type in bits.
    spec fn spec_bits() -> nat;

    /// `self * factor`, wrapped around `2^BITS`.
    spec fn spec_scaled(self, factor: nat) -> Self;

    /// Width of the type in bits.
    fn bits() -> (b: u32)
        ensures
            b == Self::spec_bits(),
            8 <= b <= 128,
    ;

    /// Multiplying by one changes nothing.
    proof fn lemma_scaled_by_one(self)
        ensures
            self.spec_scaled(1) == self,
    ;

    /// `self * 2^exponent`, wrapped around `2^BITS`.
    fn scale_by_pow2(self, exponent: u32) -> (r: Self)
        requires
            exponent <= Self::spec_bits(),
        ensures
            r == self.spec_scaled(pow2(exponent as nat)),
    ;
}

impl UnsignedInteger for u8 {
    open spec fn spec_bits() -> nat {
        8
    }

    open spec fn spec_scaled(self, factor: nat) -> u8 {
        ((self as nat * factor) % pow2(8)) as u8
    }

    fn bits() -> (b: u32) {
        8
    }

    proof fn lemma_scaled_by_one(self) {
        lemma2_to64();
    }

    fn scale_by_pow2(self, exponent: u32) -> (r: u8) {
        proof {
            lemma2_to64();
        }
        if exponent >= 8 {
            proof {
                vstd::arithmetic::div_mod::lemma_mod_multiples_basic(self as int, pow2(8) as int);
                vstd::arithmetic::mul::lemma_mul_is_commutative(self as int, pow2(8) as int);
            }
            0
        } else {
            let shift = exponent as u8;
            proof {
                vstd::bits::lemma_u8_pow2_no_overflow(shift as nat);
                vstd::bits::lemma_u8_shl_is_mul(1, shift);
            }
            self.wrapping_mul(1u8 << shift)
        }
    }
}

impl UnsignedInteger for u16 {
    open spec fn spec_bits() -> nat {
        16
    }

    open spec fn spec_scaled(self, factor: nat) -> u16 {
        ((self as nat * factor) % pow2(16)) as u16
    }

    fn bits() -> (b: u32) {
        16
    }

    proof fn lemma_scaled_by_one(self) {
        lemma2_to64();
    }

    fn scale_by_pow2(self, exponent: u32) -> (r: u16) {
        proof {
            lemma2_to64();
        }
        if exponent >= 16 {
            proof {
                vstd::arithmetic::div_mod::lemma_mod_multiples_basic(self as int, pow2(16) as int);
                vstd::arithmetic::mul::lemma_mul_is_commutative(self as int, pow2(16) as int);
            }
            0
        } else {
            let shift = exponent as u16;
            proof {
                vstd::bits::lemma_u16_pow2_no_overflow(shift as nat);
                vstd::bits::lemma_u16_shl_is_mul(1, shift);
            }
            self.wrapping_mul(1u16 << shift)
        }
    }
}

impl UnsignedInteger for u32 {
    open spec fn spec_bits() -> nat {
        32
    }

    open spec fn spec_scaled(self, factor: nat) -> u32 {
        ((self as nat * factor) % pow2(32)) as u32
    }

    fn bits() -> (b: u32) {
        32
    }

    proof fn lemma_scaled_by_one(self) {
        lemma2_to64();
    }

    fn scale_by_pow2(self, exponent: u32) -> (r: u32) {
        proof {
            lemma2_to64();
        }
        if exponent >= 32 {
            proof {
                vstd::arithmetic::div_mod::lemma_mod_multiples_basic(self as int, pow2(32) as int);
                vstd::arithmetic::mul::lemma_mul_is_commutative(self as int, pow2(32) as int);
            }
            0
        } else {
            let shift = exponent as u32;
            proof {
                vstd::bits::lemma_u32_pow2_no_overflow(shift as nat);
                vstd::bits::lemma_u32_shl_is_mul(1, shift);
            }
            self.wrapping_mul(1u32 << shift)
        }
    }
}

impl UnsignedInteger for u64 {
    open spec fn spec_bits() -> nat {
        64
    }

    open spec fn spec_scaled(self, factor: nat) -> u64 {
        ((self as nat * factor) % pow2(64)) as u64
    }

    fn bits() -> (b: u32) {
        64
    }

    proof fn lemma_scaled_by_one(self) {
        lemma2_to64();
    }

    fn scale_by_pow2(self, exponent: u32) -> (r: u64) {
        proof {
            lemma2_to64();
        }
        if exponent >= 64 {
            proof {
                vstd::arithmetic::div_mod::lemma_mod_multiples_basic(self as int, pow2(64) as int);
                vstd::arithmetic::mul::lemma_mul_is_commutative(self as int, pow2(64) as int);
            }
            0
        } else {
            let shift = exponent as u64;
            proof {
                vstd::bits::lemma_u64_pow2_no_overflow(shift as nat);
                vstd::bits::lemma_u64_shl_is_mul(1, shift);
            }
            self.wrapping_mul(1u64 << shift)
        }
    }
}

impl UnsignedInteger for u128 {
    open spec fn spec_bits() -> nat {
        128
    }

    open spec fn spec_scaled(self, factor: nat) -> u128 {
        ((self as nat * factor) % pow2(128)) as u128
    }

    fn bits() -> (b: u32) {
        128
    }

    proof fn lemma_scaled_by_one(self) {
        lemma_pow2_128();
    }

    fn scale_by_pow2(self, exponent: u32) -> (r: u128) {
        proof {
            lemma_pow2_128();
        }
        if exponent >= 128 {
            proof {
                vstd::arithmetic::div_mod::lemma_mod_multiples_basic(self as int, pow2(128) as int);
                vstd::arithmetic::mul::lemma_mul_is_commutative(self as int, pow2(128) as int);
            }
            0
        } else {
            self.wrapping_mul(pow2_u128(exponent))
        }
    }
}

} // verus!
