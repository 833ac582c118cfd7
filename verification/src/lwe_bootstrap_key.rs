//! LWE bootstrapping keys: lists of GGSW ciphertexts, one per element of the input
//! LWE secret key, with every GLWE row stored in full (masks and body).
use vstd::prelude::*;

use crate::container::Container;
use crate::numeric::UnsignedInteger;
use crate::parameters::{
    CiphertextModulus, DecompositionBaseLog, DecompositionLevelCount, GlweSize, LweDimension,
    PolynomialSize,
};

verus! {

/// Number of elements of one level of a GGSW ciphertext: `glwe_size` rows of
/// `glwe_size` polynomials.
pub open spec fn ggsw_level_size(glwe_size: GlweSize, polynomial_size: PolynomialSize) -> nat {
    (glwe_size.0 as nat) * (glwe_size.0 as nat) * (polynomial_size.0 as nat)
}

/// Number of elements of one GGSW ciphertext.
pub open spec fn ggsw_size(
    glwe_size: GlweSize,
    polynomial_size: PolynomialSize,
    decomp_level_count: DecompositionLevelCount,
) -> nat {
    (decomp_level_count.0 as nat) * ggsw_level_size(glwe_size, polynomial_size)
}

/// The shape parameters admit a GGSW ciphertext of at least one element whose size
/// fits in memory.
pub open spec fn valid_ggsw_shape(
    glwe_size: GlweSize,
    polynomial_size: PolynomialSize,
    decomp_level_count: DecompositionLevelCount,
) -> bool {
    0 < ggsw_size(glwe_size, polynomial_size, decomp_level_count) <= usize::MAX
}

/// Number of elements of one GGSW ciphertext.
pub fn ggsw_ciphertext_size(
    glwe_size: GlweSize,
    polynomial_size: PolynomialSize,
    decomp_level_count: DecompositionLevelCount,
) -> (s: usize)
    requires
        valid_ggsw_shape(glwe_size, polynomial_size, decomp_level_count),
    ensures
        s == ggsw_size(glwe_size, polynomial_size, decomp_level_count),
{
    let ghost g = glwe_size.0 as int;
    let ghost n = polynomial_size.0 as int;
    let ghost l = decomp_level_count.0 as int;
    proof {
        assert(g >= 1 && n >= 1 && l >= 1) by (nonlinear_arith)
            requires
                g >= 0,
                n >= 0,
                l >= 0,
                0 < l * (g * g * n),
        ;
        assert(g * g <= g * g * n && g * g * n <= l * (g * g * n)) by (nonlinear_arith)
            requires
                g >= 1,
                n >= 1,
                l >= 1,
        ;
    }
    decomp_level_count.0 * (glwe_size.0 * glwe_size.0 * polynomial_size.0)
}

/// The mathematical content of an LWE bootstrapping key.
pub ghost struct LweBootstrapKeyView<T: UnsignedInteger> {
    pub data: Seq<T>,
    pub glwe_size: GlweSize,
    pub polynomial_size: PolynomialSize,
    pub decomp_base_log: DecompositionBaseLog,
    pub decomp_level_count: DecompositionLevelCount,
    pub ciphertext_modulus: CiphertextModulus<T>,
}

impl<T: UnsignedInteger> LweBootstrapKeyView<T> {
    /// Number of elements of each GGSW ciphertext of the key.
    pub open spec fn ggsw_size(self) -> nat {
        ggsw_size(self.glwe_size, self.polynomial_size, self.decomp_level_count)
    }

    /// Number of GGSW ciphertexts, that is the dimension of the input LWE key.
    pub open spec fn ggsw_count(self) -> nat {
        self.data.len() / self.ggsw_size()
    }

    /// The data splits into whole GGSW ciphertexts of a valid shape.
    pub open spec fn well_formed(self) -> bool {
        &&& valid_ggsw_shape(self.glwe_size, self.polynomial_size, self.decomp_level_count)
        &&& self.data.len() % self.ggsw_size() == 0
    }
}

/// An LWE bootstrapping key stored in a container.
#[derive(Clone, Debug, PartialEq, Eq)]
pub struct LweBootstrapKey<C: Container> {
    data: C,
    glwe_size: GlweSize,
    polynomial_size: PolynomialSize,
    decomp_base_log: DecompositionBaseLog,
    decomp_level_count: DecompositionLevelCount,
    ciphertext_modulus: CiphertextModulus<C::Element>,
}

/// An LWE bootstrapping key owning its storage.
pub type LweBootstrapKeyOwned<Scalar> = LweBootstrapKey<Vec<Scalar>>;

impl<C: Container> View for LweBootstrapKey<C> {
    type V = LweBootstrapKeyView<C::Element>;

    closed spec fn view(&self) -> LweBootstrapKeyView<C::Element> {
        LweBootstrapKeyView {
            data: self.data.items(),
            glwe_size: self.glwe_size,
            polynomial_size: self.polynomial_size,
            decomp_base_log: self.decomp_base_log,
            decomp_level_count: self.decomp_level_count,
            ciphertext_modulus: self.ciphertext_modulus,
        }
    }
}

impl<C: Container> LweBootstrapKey<C> {
    /// Wrap a container as a bootstrapping key of the given shape.
    pub fn from_container(
        container: C,
        glwe_size: GlweSize,
        polynomial_size: PolynomialSize,
        decomp_base_log: DecompositionBaseLog,
        decomp_level_count: DecompositionLevelCount,
        ciphertext_modulus: CiphertextModulus<C::Element>,
    ) -> (key: Self)
        requires
            valid_ggsw_shape(glwe_size, polynomial_size, decomp_level_count),
            container.items().len() % ggsw_size(glwe_size, polynomial_size, decomp_level_count)
                == 0,
        ensures
            key@ == (LweBootstrapKeyView {
                data: container.items(),
                glwe_size,
                polynomial_size,
                decomp_base_log,
                decomp_level_count,
                ciphertext_modulus,
            }),
    {
        LweBootstrapKey {
            data: container,
            glwe_size,
            polynomial_size,
            decomp_base_log,
            decomp_level_count,
            ciphertext_modulus,
        }
    }

    pub fn glwe_size(&self) -> (r: GlweSize)
        ensures
            r == self@.glwe_size,
    {
        self.glwe_size
    }

    pub fn polynomial_size(&self) -> (r: PolynomialSize)
        ensures
            r == self@.polynomial_size,
    {
        self.polynomial_size
    }

    pub fn decomposition_base_log(&self) -> (r: DecompositionBaseLog)
        ensures
            r == self@.decomp_base_log,
    {
        self.decomp_base_log
    }

    pub fn decomposition_level_count(&self) -> (r: DecompositionLevelCount)
        ensures
            r == self@.decomp_level_count,
    {
        self.decomp_level_count
    }

    pub fn ciphertext_modulus(&self) -> (r: CiphertextModulus<C::Element>)
        ensures
            r == self@.ciphertext_modulus,
    {
        self.ciphertext_modulus
    }

    /// The dimension of the input LWE secret key: one GGSW ciphertext per element.
    pub fn input_lwe_dimension(&self) -> (d: LweDimension)
        requires
            self@.well_formed(),
        ensures
            d.0 == self@.ggsw_count(),
    {
        LweDimension(
            self.data.container_len() / ggsw_ciphertext_size(
                self.glwe_size,
                self.polynomial_size,
                self.decomp_level_count,
            ),
        )
    }

    /// The dimension of the LWE secret key that the output GLWE secret key
    /// flattens to: `(glwe_size - 1) * polynomial_size`.
    pub fn output_lwe_dimension(&self) -> (d: LweDimension)
        requires
            self@.well_formed(),
        ensures
            d.0 == (self@.glwe_size.0 - 1) * self@.polynomial_size.0,
    {
        let ghost g = self.glwe_size.0 as int;
        let ghost n = self.polynomial_size.0 as int;
        let ghost l = self.decomp_level_count.0 as int;
        proof {
            assert(g >= 1 && (g - 1) * n <= l * (g * g * n)) by (nonlinear_arith)
                requires
                    g >= 0,
                    n >= 0,
                    l >= 0,
                    0 < l * (g * g * n),
            ;
        }
        self.glwe_size.to_glwe_dimension().to_equivalent_lwe_dimension(self.polynomial_size)
    }

    /// The elements of the key, in order.
    pub fn as_slice(&self) -> (s: &[C::Element])
        ensures
            s@ == self@.data,
    {
        self.data.as_slice()
    }

    /// Give back the container.
    pub fn into_container(self) -> (c: C)
        ensures
            c.items() == self@.data,
    {
        self.data
    }
}

} // verus!
