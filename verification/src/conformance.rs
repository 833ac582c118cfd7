//! The parameter sets that an entity can be checked against before it is used.
use vstd::prelude::*;

use vstd::std_specs::convert::FromSpecImpl;

use crate::numeric::UnsignedInteger;
use crate::parameters::{
    CiphertextModulus, DecompositionBaseLog, DecompositionLevelCount, GlweSize, LweDimension,
    PolynomialSize,
};

verus! {

/// The parameters that every GGSW ciphertext of a list must have.
#[derive(Debug)]
pub struct GgswCiphertextConformanceParams<Scalar: UnsignedInteger> {
    pub decomp_base_log: DecompositionBaseLog,
    pub decomp_level_count: DecompositionLevelCount,
    pub glwe_size: GlweSize,
    pub polynomial_size: PolynomialSize,
    pub ciphertext_modulus: CiphertextModulus<Scalar>,
}

/// The parameters of a list of GGSW ciphertexts: its length and the parameters of
/// every ciphertext in it.
#[derive(Debug)]
pub struct GgswCiphertextListConformanceParams<Scalar: UnsignedInteger> {
    pub len: usize,
    pub ggsw_params: GgswCiphertextConformanceParams<Scalar>,
}

/// The parameters of an LWE bootstrapping key.
#[derive(Debug)]
pub struct LweBootstrapKeyConformanceParams<Scalar: UnsignedInteger> {
    pub decomp_base_log: DecompositionBaseLog,
    pub decomp_level_count: DecompositionLevelCount,
    pub input_lwe_dimension: LweDimension,
    pub output_glwe_size: GlweSize,
    pub polynomial_size: PolynomialSize,
    pub ciphertext_modulus: CiphertextModulus<Scalar>,
}

impl<Scalar: UnsignedInteger> LweBootstrapKeyConformanceParams<Scalar> {
    /// A bootstrapping key is a list of one GGSW ciphertext per element of the input
    /// LWE secret key, each over the output GLWE secret key.
    pub open spec fn spec_ggsw_list_params(&self) -> GgswCiphertextListConformanceParams<Scalar> {
        GgswCiphertextListConformanceParams {
            len: self.input_lwe_dimension.0,
            ggsw_params: GgswCiphertextConformanceParams {
                decomp_base_log: self.decomp_base_log,
                decomp_level_count: self.decomp_level_count,
                glwe_size: self.output_glwe_size,
                polynomial_size: self.polynomial_size,
                ciphertext_modulus: self.ciphertext_modulus,
            },
        }
    }
}

impl<'a, Scalar: UnsignedInteger> From<&'a LweBootstrapKeyConformanceParams<Scalar>> for GgswCiphertextListConformanceParams<Scalar> {
    fn from(value: &'a LweBootstrapKeyConformanceParams<Scalar>) -> (r: Self) {
        GgswCiphertextListConformanceParams {
            len: value.input_lwe_dimension.0,
            ggsw_params: GgswCiphertextConformanceParams {
                decomp_base_log: value.decomp_base_log,
                decomp_level_count: value.decomp_level_count,
                glwe_size: value.output_glwe_size,
                polynomial_size: value.polynomial_size,
                ciphertext_modulus: value.ciphertext_modulus,
            },
        }
    }
}

impl<'a, Scalar: UnsignedInteger> FromSpecImpl<&'a LweBootstrapKeyConformanceParams<Scalar>> for GgswCiphertextListConformanceParams<Scalar> {
    open spec fn obeys_from_spec() -> bool {
        true
    }

    open spec fn from_spec(value: &'a LweBootstrapKeyConformanceParams<Scalar>) -> Self {
        value.spec_ggsw_list_params()
    }
}

/// The product `a * b * c * d`, or `None` when it does not fit in a `usize`.
pub(crate) fn checked_product4(a: usize, b: usize, c: usize, d: usize) -> (r: Option<usize>)
    ensures
        r matches Some(p) ==> p == a * b * c * d,
        r is None ==> a * b * c * d > usize::MAX,
{
    if a == 0 || b == 0 || c == 0 || d == 0 {
        proof {
            assert(a * b * c * d == 0) by (nonlinear_arith)
                requires
                    a == 0 || b == 0 || c == 0 || d == 0,
            ;
        }
        return Some(0);
    }
    proof {
        assert(a * b <= a * b * c && a * b * c <= a * b * c * d) by (nonlinear_arith)
            requires
                a >= 1,
                b >= 1,
                c >= 1,
                d >= 1,
        ;
    }
    match a.checked_mul(b) {
        None => None,
        Some(ab) => match ab.checked_mul(c) {
            None => None,
            Some(abc) => abc.checked_mul(d),
        },
    }
}

} // verus!
