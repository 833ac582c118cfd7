//! Parameters that describe the shape of GGSW ciphertexts and bootstrapping keys, the
//! seed that compressed entities carry, and the ciphertext modulus.
use vstd::prelude::*;
use vstd::arithmetic::power2::{is_pow2, pow2};

use crate::numeric::{lemma_pow2_128, pow2_u128, UnsignedInteger};

verus! {

/// Number of polynomials in a GLWE ciphertext: the mask polynomials plus the body.
#[derive(Clone, Copy, Debug, PartialEq, Eq, Structural)]
pub struct GlweSize(pub usize);

/// Number of mask polynomials in a GLWE ciphertext.
#[derive(Clone, Copy, Debug, PartialEq, Eq, Structural)]
pub struct GlweDimension(pub usize);

/// Number of coefficients of a polynomial.
#[derive(Clone, Copy, Debug, PartialEq, Eq, Structural)]
pub struct PolynomialSize(pub usize);

/// Base 2 logarithm of the decomposition base.
#[derive(Clone, Copy, Debug, PartialEq, Eq, Structural)]
pub struct DecompositionBaseLog(pub usize);

/// Number of levels of a decomposition.
#[derive(Clone, Copy, Debug, PartialEq, Eq, Structural)]
pub struct DecompositionLevelCount(pub usize);

/// Number of mask elements of an LWE ciphertext.
#[derive(Clone, Copy, Debug, PartialEq, Eq, Structural)]
pub struct LweDimension(pub usize);

/// Number of GGSW ciphertexts in a list.
#[derive(Clone, Copy, Debug, PartialEq, Eq, Structural)]
pub struct GgswCiphertextCount(pub usize);

/// A seed for a pseudo random generator.
#[derive(Clone, Copy, Debug, PartialEq, Eq, Structural)]
pub struct Seed(pub u128);

/// The seed from which the masks of a seeded entity are regenerated.
#[derive(Clone, Copy, Debug, PartialEq, Eq, Structural)]
pub struct CompressionSeed {
    pub seed: Seed,
}

impl GlweSize {
    /// The number of mask polynomials, one less than the size.
    pub fn to_glwe_dimension(&self) -> (d: GlweDimension)
        requires
            self.0 >= 1,
        ensures
            d.0 == self.0 - 1,
    {
        GlweDimension(self.0 - 1)
    }
}

impl GlweDimension {
    /// The dimension of the LWE secret key that a GLWE secret key of this dimension
    /// and of the given polynomial size flattens to.
    pub fn to_equivalent_lwe_dimension(&self, polynomial_size: PolynomialSize) -> (d: LweDimension)
        requires
            self.0 * polynomial_size.0 <= usize::MAX,
        ensures
            d.0 == self.0 * polynomial_size.0,
    {
        LweDimension(self.0 * polynomial_size.0)
    }
}

/// Base 2 logarithm of a power of two ciphertext modulus.
#[derive(Clone, Copy, Debug, PartialEq, Eq, Structural)]
pub struct CiphertextModulusLog(pub usize);

/// How a ciphertext modulus is held: the native modulus `2^BITS` of the scalar
/// type, or a custom one below it.
#[derive(Clone, Copy, Debug, PartialEq, Eq, Structural)]
pub enum CiphertextModulusKind {
    Native,
    Custom(u128),
}

/// The modulus that the elements of a ciphertext are reduced by.
#[derive(Copy, Debug)]
pub struct CiphertextModulus<Scalar: UnsignedInteger> {
    kind: CiphertextModulusKind,
    scalar: core::marker::PhantomData<Scalar>,
}

impl<Scalar: UnsignedInteger> PartialEq for CiphertextModulus<Scalar> {
    fn eq(&self, other: &Self) -> (b: bool) {
        proof {
            use_type_invariant(self);
            use_type_invariant(other);
        }
        match (self.kind, other.kind) {
            (CiphertextModulusKind::Native, CiphertextModulusKind::Native) => true,
            (CiphertextModulusKind::Custom(a), CiphertextModulusKind::Custom(b)) => a == b,
            _ => false,
        }
    }
}

impl<Scalar: UnsignedInteger> vstd::std_specs::cmp::PartialEqSpecImpl for CiphertextModulus<Scalar> {
    open spec fn obeys_eq_spec() -> bool {
        true
    }

    open spec fn eq_spec(&self, other: &Self) -> bool {
        self.value() == other.value()
    }
}

impl<Scalar: UnsignedInteger> Eq for CiphertextModulus<Scalar> {}

impl<Scalar: UnsignedInteger> Clone for CiphertextModulus<Scalar> {
    fn clone(&self) -> (m: Self)
        ensures
            m == *self,
    {
        *self
    }
}

impl<Scalar: UnsignedInteger> CiphertextModulus<Scalar> {
    /// A custom modulus lies strictly between 0 and `2^BITS`.
    #[verifier::type_invariant]
    closed spec fn inv(self) -> bool {
        match self.kind {
            CiphertextModulusKind::Native => true,
            CiphertextModulusKind::Custom(m) => 0 < m && m < pow2(Scalar::spec_bits()),
        }
    }

    /// Whether this is the native modulus `2^BITS`.
    pub closed spec fn spec_is_native(self) -> bool {
        self.kind is Native
    }

    /// The value of the modulus.
    pub closed spec fn value(self) -> nat {
        match self.kind {
            CiphertextModulusKind::Native => pow2(Scalar::spec_bits()),
            CiphertextModulusKind::Custom(m) => m as nat,
        }
    }

    /// Seeded entities can only use the native modulus or a power of two.
    pub open spec fn spec_is_compatible_with_native_modulus(self) -> bool {
        is_pow2(self.value() as int)
    }

    /// The native modulus `2^BITS`.
    pub fn new_native() -> (m: Self)
        ensures
            m.spec_is_native(),
            m.value() == pow2(Scalar::spec_bits()),
            m.spec_is_compatible_with_native_modulus(),
    {
        proof {
            lemma_pow2_is_pow2(Scalar::spec_bits());
        }
        CiphertextModulus { kind: CiphertextModulusKind::Native, scalar: core::marker::PhantomData }
    }

    /// The modulus of the given value, where 0 stands for the native modulus.
    /// Fails when the value exceeds `2^BITS`.
    pub fn try_new(modulus: u128) -> (r: Result<Self, &'static str>)
        ensures
            r is Ok <==> modulus <= pow2(Scalar::spec_bits()),
            r matches Ok(m) ==> m.value() == (if modulus == 0 {
                pow2(Scalar::spec_bits())
            } else {
                modulus as nat
            }),
    {
        let bits = Scalar::bits();
        if modulus == 0 {
            return Ok(Self::new_native());
        }
        if bits >= 128 {
            proof {
                lemma_pow2_128();
            }
            return Ok(CiphertextModulus {
                kind: CiphertextModulusKind::Custom(modulus),
                scalar: core::marker::PhantomData,
            });
        }
        let native = pow2_u128(bits);
        if modulus > native {
            Err("Modulus is bigger than the maximum value of the associated Scalar type")
        } else if modulus == native {
            Ok(Self::new_native())
        } else {
            Ok(CiphertextModulus {
                kind: CiphertextModulusKind::Custom(modulus),
                scalar: core::marker::PhantomData,
            })
        }
    }

    pub fn is_native_modulus(&self) -> (b: bool)
        ensures
            b == self.spec_is_native(),
            b <==> self.value() == pow2(Scalar::spec_bits()),
            0 < self.value() <= pow2(Scalar::spec_bits()),
    {
        proof {
            use_type_invariant(self);
            vstd::arithmetic::power2::lemma_pow2_pos(Scalar::spec_bits());
        }
        match self.kind {
            CiphertextModulusKind::Native => true,
            CiphertextModulusKind::Custom(_) => false,
        }
    }

    /// The value of a custom modulus, and 0 for the native one.
    pub fn get_custom_modulus(&self) -> (m: u128)
        ensures
            self.spec_is_native() ==> m == 0,
            !self.spec_is_native() ==> m == self.value(),
    {
        match self.kind {
            CiphertextModulusKind::Native => 0,
            CiphertextModulusKind::Custom(m) => m,
        }
    }

    /// The base 2 logarithm of a power of two modulus.
    pub fn into_modulus_log(&self) -> (log: CiphertextModulusLog)
        requires
            self.spec_is_compatible_with_native_modulus(),
        ensures
            pow2(log.0 as nat) == self.value(),
            log.0 <= Scalar::spec_bits(),
    {
        proof {
            use_type_invariant(self);
        }
        let bits = Scalar::bits();
        match self.kind {
            CiphertextModulusKind::Native => CiphertextModulusLog(bits as usize),
            CiphertextModulusKind::Custom(m) => {
                let mut x: u128 = m;
                let mut k: u32 = 0;
                proof {
                    reveal(is_pow2);
                    vstd::arithmetic::power2::lemma2_to64();
                }
                while x > 1
                    invariant
                        x > 0,
                        is_pow2(x as int),
                        x * pow2(k as nat) == m,
                        m < pow2(Scalar::spec_bits()),
                        k <= 128,
                    decreases x,
                {
                    proof {
                        reveal(is_pow2);
                        vstd::arithmetic::power2::lemma_pow2_unfold((k + 1) as nat);
                        vstd::arithmetic::power2::lemma_pow2_pos(k as nat);
                        if k >= 128 {
                            vstd::arithmetic::power2::lemma_pow2_strictly_increases(127, k as nat);
                            lemma_pow2_128();
                            assert(x * pow2(k as nat) >= pow2(k as nat)) by (nonlinear_arith)
                                requires
                                    x >= 1,
                            ;
                        }
                        assert((x / 2) * pow2((k + 1) as nat) == x * pow2(k as nat))
                            by (nonlinear_arith)
                            requires
                                x % 2 == 0,
                                pow2((k + 1) as nat) == 2 * pow2(k as nat),
                        ;
                    }
                    x = x / 2;
                    k = k + 1;
                }
                proof {
                    if k > Scalar::spec_bits() {
                        vstd::arithmetic::power2::lemma_pow2_strictly_increases(
                            Scalar::spec_bits(),
                            k as nat,
                        );
                    }
                }
                CiphertextModulusLog(k as usize)
            },
        }
    }

    /// Whether the modulus is a power of two.
    pub fn is_power_of_two(&self) -> (b: bool)
        ensures
            b == is_pow2(self.value() as int),
    {
        proof {
            use_type_invariant(self);
        }
        match self.kind {
            CiphertextModulusKind::Native => {
                proof {
                    lemma_pow2_is_pow2(Scalar::spec_bits());
                }
                true
            },
            CiphertextModulusKind::Custom(m) => u128_is_power_of_two(m),
        }
    }

    /// Whether seeded entities can use this modulus: the native one or a power of two.
    pub fn is_compatible_with_native_modulus(&self) -> (b: bool)
        ensures
            b == self.spec_is_compatible_with_native_modulus(),
    {
        proof {
            lemma_pow2_is_pow2(Scalar::spec_bits());
        }
        self.is_native_modulus() || self.is_power_of_two()
    }
}

/// `2^e` is a power of two.
proof fn lemma_pow2_is_pow2(e: nat)
    ensures
        is_pow2(pow2(e) as int),
{
    vstd::arithmetic::power2::lemma_pow2(e);
    vstd::arithmetic::power2::is_pow2_equiv(pow2(e) as int);
    assert(vstd::arithmetic::power::pow(2, e) == pow2(e) as int);
}

/// Whether `m` is a power of two, halving it while it is even.
fn u128_is_power_of_two(m: u128) -> (b: bool)
    ensures
        b == is_pow2(m as int),
{
    reveal(is_pow2);
    if m == 0 {
        return false;
    }
    let mut x: u128 = m;
    while x > 1 && x % 2 == 0
        invariant
            x > 0,
            is_pow2(x as int) == is_pow2(m as int),
        decreases x,
    {
        proof {
            reveal(is_pow2);
        }
        x = x / 2;
    }
    x == 1
}

} // verus!
