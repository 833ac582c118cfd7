//! Seeded LWE bootstrapping keys.
//!
//! A seeded LWE bootstrapping key is a list of seeded GGSW ciphertexts, one per
//! element of the input LWE secret key. Decompressing it regenerates the mask of every
//! GLWE row and gives a full LWE bootstrapping key with the same parameters.
use vstd::prelude::*;
use vstd::arithmetic::power2::pow2;

use crate::conformance::LweBootstrapKeyConformanceParams;
use crate::container::{Container, ContainerMut};
use crate::decompression::{decompress_rows, decompressed_rows};
use crate::lwe_bootstrap_key::{ggsw_size, LweBootstrapKey, LweBootstrapKeyOwned, LweBootstrapKeyView};
use crate::numeric::UnsignedInteger;
use crate::parameters::{
    CiphertextModulus, CompressionSeed, DecompositionBaseLog, DecompositionLevelCount,
    GgswCiphertextCount, GlweSize, LweDimension, PolynomialSize,
};
use crate::seeded_ggsw_ciphertext_list::{
    lemma_valid_seeded_ggsw_shape, seeded_ggsw_size, valid_seeded_ggsw_shape,
    lemma_conforms_to_iff_same_parameters, SeededGgswCiphertextList, SeededGgswListView,
};

verus! {

/// A seeded LWE bootstrapping key: a list of seeded GGSW ciphertexts, one per element
/// of the input LWE secret key.
#[derive(Clone, Debug, PartialEq, Eq)]
pub struct SeededLweBootstrapKey<C: Container> {
    ggsw_list: SeededGgswCiphertextList<C>,
}

/// A seeded LWE bootstrapping key owning its storage.
pub type SeededLweBootstrapKeyOwned<Scalar> = SeededLweBootstrapKey<Vec<Scalar>>;

impl<C: Container> View for SeededLweBootstrapKey<C> {
    type V = SeededGgswListView<C::Element>;

    closed spec fn view(&self) -> SeededGgswListView<C::Element> {
        self.ggsw_list@
    }
}

impl<C: Container> core::ops::Deref for SeededLweBootstrapKey<C> {
    type Target = SeededGgswCiphertextList<C>;

    fn deref(&self) -> (list: &SeededGgswCiphertextList<C>)
        ensures
            list@ == self@,
            list.container() == self.container(),
    {
        &self.ggsw_list
    }
}

impl<C: Container> SeededLweBootstrapKey<C> {
    /// The container the key is stored in.
    pub closed spec fn container(&self) -> C {
        self.ggsw_list.container()
    }

    /// A key is determined by its container and its parameters: wrapping the
    /// container of a key again, with the key's own parameters, gives back that key.
    pub proof fn lemma_determined_by_parts(a: Self, b: Self)
        requires
            a.container() == b.container(),
            a@ == b@,
        ensures
            a == b,
    {
        SeededGgswCiphertextList::lemma_determined_by_parts(a.ggsw_list, b.ggsw_list);
    }

    /// Wrap a container as a seeded bootstrapping key of the given shape. Seeded
    /// entities only support the native modulus or a power of two.
    pub fn from_container(
        container: C,
        glwe_size: GlweSize,
        polynomial_size: PolynomialSize,
        decomp_base_log: DecompositionBaseLog,
        decomp_level_count: DecompositionLevelCount,
        compression_seed: CompressionSeed,
        ciphertext_modulus: CiphertextModulus<C::Element>,
    ) -> (key: Self)
        requires
            ciphertext_modulus.spec_is_compatible_with_native_modulus(),
            valid_seeded_ggsw_shape(glwe_size, polynomial_size, decomp_level_count),
            container.items().len() % seeded_ggsw_size(
                glwe_size,
                polynomial_size,
                decomp_level_count,
            ) == 0,
        ensures
            key.container() == container,
            key@ == (SeededGgswListView {
                data: container.items(),
                glwe_size,
                polynomial_size,
                decomp_base_log,
                decomp_level_count,
                compression_seed,
                ciphertext_modulus,
            }),
            key@.well_formed(),
    {
        SeededLweBootstrapKey {
            ggsw_list: SeededGgswCiphertextList::from_container(
                container,
                glwe_size,
                polynomial_size,
                decomp_base_log,
                decomp_level_count,
                compression_seed,
                ciphertext_modulus,
            ),
        }
    }

    /// The dimension of the input LWE secret key: the number of seeded GGSW
    /// ciphertexts in the key.
    pub fn input_lwe_dimension(&self) -> (d: LweDimension)
        requires
            self@.well_formed(),
        ensures
            d.0 == self@.ggsw_count(),
    {
        let count: GgswCiphertextCount = self.ggsw_list.ggsw_ciphertext_count();
        LweDimension(count.0)
    }

    /// The dimension of the LWE secret key that the output GLWE secret key flattens
    /// to: `(glwe_size - 1) * polynomial_size`.
    pub fn output_lwe_dimension(&self) -> (d: LweDimension)
        requires
            self@.well_formed(),
        ensures
            d.0 == (self@.glwe_size.0 - 1) * self@.polynomial_size.0,
    {
        let glwe_size = self.ggsw_list.glwe_size();
        let polynomial_size = self.ggsw_list.polynomial_size();
        proof {
            lemma_valid_seeded_ggsw_shape(glwe_size, polynomial_size, self@.decomp_level_count);
            let g = glwe_size.0 as int;
            let n = polynomial_size.0 as int;
            assert((g - 1) * n <= g * n) by (nonlinear_arith)
                requires
                    g >= 1,
                    n >= 1,
            ;
        }
        glwe_size.to_glwe_dimension().to_equivalent_lwe_dimension(polynomial_size)
    }

    /// Consume the key and give back its container.
    pub fn into_container(self) -> (c: C)
        ensures
            c == self.container(),
            c.items() == self@.data,
    {
        self.ggsw_list.into_container()
    }

    /// A key with the same parameters that borrows the data.
    pub fn as_view(&self) -> (v: SeededLweBootstrapKey<&[C::Element]>)
        requires
            self@.well_formed(),
        ensures
            v@ == self@,
    {
        let glwe_size = self.ggsw_list.glwe_size();
        let polynomial_size = self.ggsw_list.polynomial_size();
        let decomp_base_log = self.ggsw_list.decomposition_base_log();
        let decomp_level_count = self.ggsw_list.decomposition_level_count();
        let compression_seed = self.ggsw_list.compression_seed();
        let ciphertext_modulus = self.ggsw_list.ciphertext_modulus();
        SeededLweBootstrapKey::from_container(
            self.ggsw_list.as_slice(),
            glwe_size,
            polynomial_size,
            decomp_base_log,
            decomp_level_count,
            compression_seed,
            ciphertext_modulus,
        )
    }

    /// Mask values drawn below the key's modulus, brought onto the native torus:
    /// each multiplied by `2^BITS / modulus`, wrapped around `2^BITS`.
    pub fn scale_masks_to_native_torus(&self, masks: &[C::Element]) -> (scaled: Vec<C::Element>)
        requires
            self@.well_formed(),
        ensures
            scaled@ == self@.scaled_masks(masks@),
    {
        let ciphertext_modulus = self.ggsw_list.ciphertext_modulus();
        let bits = C::Element::bits();
        let log = ciphertext_modulus.into_modulus_log();
        let exponent = bits - log.0 as u32;
        proof {
            vstd::arithmetic::power2::lemma_pow2_subtracts(log.0 as nat, C::Element::spec_bits());
        }
        let scaled = scale_all(masks, exponent);
        assert(scaled@ =~= self@.scaled_masks(masks@));
        scaled
    }

    /// Decompress the key into a full LWE bootstrapping key with the same parameters.
    ///
    /// `masks` is the run of mask elements that the pseudo random generator seeded
    /// with the key's compression seed yields, uniform below the ciphertext modulus,
    /// `row_mask_len` of them per GLWE row. Each row of the result is its mask, taken
    /// in order from `masks` and scaled onto the native torus (multiplied by
    /// `2^BITS / modulus`, which is 1 for the native modulus), followed by the body
    /// that the key stores for it.
    pub fn decompress_into_lwe_bootstrap_key(self, masks: &[C::Element]) -> (bsk: LweBootstrapKeyOwned<
        C::Element,
    >)
        requires
            self@.well_formed(),
            masks@.len() == self@.mask_len(),
            ggsw_size(self@.glwe_size, self@.polynomial_size, self@.decomp_level_count)
                <= usize::MAX,
            self@.ggsw_count() * ggsw_size(
                self@.glwe_size,
                self@.polynomial_size,
                self@.decomp_level_count,
            ) <= usize::MAX,
        ensures
            bsk@ == (LweBootstrapKeyView {
                data: decompressed_rows(
                    self@.data,
                    self@.scaled_masks(masks@),
                    self@.row_mask_len(),
                    self@.polynomial_size.0 as nat,
                ),
                glwe_size: self@.glwe_size,
                polynomial_size: self@.polynomial_size,
                decomp_base_log: self@.decomp_base_log,
                decomp_level_count: self@.decomp_level_count,
                ciphertext_modulus: self@.ciphertext_modulus,
            }),
            bsk@.well_formed(),
            bsk@.ggsw_count() == self@.ggsw_count(),
    {
        let glwe_size = self.ggsw_list.glwe_size();
        let polynomial_size = self.ggsw_list.polynomial_size();
        let decomp_base_log = self.ggsw_list.decomposition_base_log();
        let decomp_level_count = self.ggsw_list.decomposition_level_count();
        let ciphertext_modulus = self.ggsw_list.ciphertext_modulus();
        let ghost v = self@;
        proof {
            lemma_decompressed_shape(v);
        }
        let n = polynomial_size.0;
        let m = (glwe_size.0 - 1) * n;
        let data = if ciphertext_modulus.is_native_modulus() {
            proof {
                let b = C::Element::spec_bits();
                vstd::arithmetic::power2::lemma_pow2_subtracts(b, b);
                vstd::arithmetic::power2::lemma2_to64();
                assert(v.mask_scaling_factor() == 1);
                assert forall|i: int| 0 <= i < masks@.len() implies #[trigger] masks@[i]
                    == v.scaled_masks(masks@)[i] by {
                    masks@[i].lemma_scaled_by_one();
                }
                assert(masks@ =~= v.scaled_masks(masks@));
            }
            decompress_rows(self.ggsw_list.as_slice(), masks, m, n)
        } else {
            let scaled = self.scale_masks_to_native_torus(masks);
            decompress_rows(self.ggsw_list.as_slice(), scaled.as_slice(), m, n)
        };
        proof {
            let size = ggsw_size(v.glwe_size, v.polynomial_size, v.decomp_level_count) as int;
            let c = v.ggsw_count() as int;
            vstd::arithmetic::div_mod::lemma_fundamental_div_mod_converse(c * size, size, c, 0);
            vstd::arithmetic::mul::lemma_mul_is_commutative(c, size);
        }
        LweBootstrapKey::from_container(
            data,
            glwe_size,
            polynomial_size,
            decomp_base_log,
            decomp_level_count,
            ciphertext_modulus,
        )
    }

    /// Whether the key holds `input_lwe_dimension` seeded GGSW ciphertexts of exactly
    /// the given parameters.
    pub fn is_conformant(&self, parameter_set: &LweBootstrapKeyConformanceParams<C::Element>) -> (b:
        bool)
        ensures
            b == self@.conforms_to(parameter_set.spec_ggsw_list_params()),
            self@.well_formed() ==> (b <==> {
                &&& self@.ggsw_count() == parameter_set.input_lwe_dimension.0
                &&& self@.glwe_size == parameter_set.output_glwe_size
                &&& self@.polynomial_size == parameter_set.polynomial_size
                &&& self@.decomp_base_log == parameter_set.decomp_base_log
                &&& self@.decomp_level_count == parameter_set.decomp_level_count
                &&& self@.ciphertext_modulus.value() == parameter_set.ciphertext_modulus.value()
            }),
    {
        let params = parameter_set.into();
        self.ggsw_list.is_conformant(&params)
    }
}

/// Every element multiplied by `2^exponent`, wrapped around `2^BITS`.
pub fn scale_all<T: UnsignedInteger>(values: &[T], exponent: u32) -> (r: Vec<T>)
    requires
        exponent <= T::spec_bits(),
    ensures
        r@ == values@.map_values(|x: T| x.spec_scaled(pow2(exponent as nat))),
{
    let mut r: Vec<T> = Vec::new();
    let mut i: usize = 0;
    while i < values.len()
        invariant
            i <= values.len(),
            exponent <= T::spec_bits(),
            r@ == values@.subrange(0, i as int).map_values(
                |x: T| x.spec_scaled(pow2(exponent as nat)),
            ),
        decreases values.len() - i,
    {
        r.push(values[i].scale_by_pow2(exponent));
        proof {
            assert(values@.subrange(0, i + 1) =~= values@.subrange(0, i as int).push(values@[i as int]));
        }
        i = i + 1;
        assert(r@ =~= values@.subrange(0, i as int).map_values(|x: T| x.spec_scaled(pow2(exponent as nat))));
    }
    assert(values@.subrange(0, i as int) =~= values@);
    r
}

/// The sizes involved in decompressing a well formed list: each row widens from `n`
/// to `glwe_size * n` elements, so the result holds as many GGSW ciphertexts of the
/// full size as the list holds seeded ones.
proof fn lemma_decompressed_shape<T: UnsignedInteger>(v: SeededGgswListView<T>)
    requires
        v.well_formed(),
    ensures
        v.polynomial_size.0 > 0,
        v.glwe_size.0 >= 1,
        v.row_mask_len() + v.polynomial_size.0 == v.glwe_size.0 * v.polynomial_size.0,
        v.glwe_size.0 * v.polynomial_size.0 <= usize::MAX,
        (v.glwe_size.0 - 1) * v.polynomial_size.0 <= usize::MAX,
        v.data.len() % (v.polynomial_size.0 as nat) == 0,
        v.row_count() == v.ggsw_count() * v.decomp_level_count.0 * v.glwe_size.0,
        v.row_count() * (v.row_mask_len() + v.polynomial_size.0) == v.ggsw_count() * ggsw_size(
            v.glwe_size,
            v.polynomial_size,
            v.decomp_level_count,
        ),
        ggsw_size(v.glwe_size, v.polynomial_size, v.decomp_level_count) > 0,
{
    lemma_valid_seeded_ggsw_shape(v.glwe_size, v.polynomial_size, v.decomp_level_count);
    let g = v.glwe_size.0 as int;
    let n = v.polynomial_size.0 as int;
    let l = v.decomp_level_count.0 as int;
    let s = v.ggsw_size() as int;
    let c = v.ggsw_count() as int;
    let len = v.data.len() as int;
    vstd::arithmetic::div_mod::lemma_fundamental_div_mod(len, s);
    assert(len == c * s) by (nonlinear_arith)
        requires
            len == s * c + 0,
    ;
    assert(s == l * (g * n));
    assert(len == (c * l * g) * n + 0) by (nonlinear_arith)
        requires
            len == c * s,
            s == l * (g * n),
    ;
    vstd::arithmetic::div_mod::lemma_fundamental_div_mod_converse(len, n, c * l * g, 0);
    assert(c * l * g >= 0) by (nonlinear_arith)
        requires
            c >= 0,
            l >= 0,
            g >= 0,
    ;
    assert((g - 1) * n + n == g * n) by (nonlinear_arith);
    assert((g - 1) * n <= g * n) by (nonlinear_arith)
        requires
            g >= 1,
            n >= 1,
    ;
    assert((c * l * g) * (g * n) == c * (l * (g * g * n))) by (nonlinear_arith);
    assert(l * (g * g * n) > 0) by (nonlinear_arith)
        requires
            g >= 1,
            n >= 1,
            l >= 1,
    ;
}

/// The conformance parameters that describe a key exactly.
pub open spec fn own_parameters<T: UnsignedInteger>(v: SeededGgswListView<T>) -> LweBootstrapKeyConformanceParams<T> {
    LweBootstrapKeyConformanceParams {
        decomp_base_log: v.decomp_base_log,
        decomp_level_count: v.decomp_level_count,
        input_lwe_dimension: LweDimension(v.ggsw_count() as usize),
        output_glwe_size: v.glwe_size,
        polynomial_size: v.polynomial_size,
        ciphertext_modulus: v.ciphertext_modulus,
    }
}

/// A well formed key conforms to a bootstrapping key parameter set exactly when its
/// input LWE dimension, output GLWE size, polynomial size, decomposition base log,
/// decomposition level count and modulus (by value) are the ones the set asks for.
pub proof fn lemma_key_conforms_iff_same_parameters<T: UnsignedInteger>(
    v: SeededGgswListView<T>,
    params: LweBootstrapKeyConformanceParams<T>,
)
    requires
        v.well_formed(),
    ensures
        v.conforms_to(params.spec_ggsw_list_params()) <==> {
            &&& v.ggsw_count() == params.input_lwe_dimension.0
            &&& v.glwe_size == params.output_glwe_size
            &&& v.polynomial_size == params.polynomial_size
            &&& v.decomp_base_log == params.decomp_base_log
            &&& v.decomp_level_count == params.decomp_level_count
            &&& v.ciphertext_modulus.value() == params.ciphertext_modulus.value()
        },
{
    lemma_conforms_to_iff_same_parameters(v, params.spec_ggsw_list_params());
}

/// A well formed key conforms to the parameters it was built with.
pub proof fn lemma_conforms_to_own_parameters<T: UnsignedInteger>(v: SeededGgswListView<T>)
    requires
        v.well_formed(),
        v.data.len() <= usize::MAX,
    ensures
        v.conforms_to(own_parameters(v).spec_ggsw_list_params()),
{
    let s = v.ggsw_size() as int;
    let len = v.data.len() as int;
    vstd::arithmetic::div_mod::lemma_fundamental_div_mod(len, s);
    vstd::arithmetic::div_mod::lemma_div_is_ordered_by_denominator(len, 1, s);
    assert(len == v.ggsw_count() * s) by (nonlinear_arith)
        requires
            len == s * (len / s) + 0,
            v.ggsw_count() == len / s,
    ;
}

impl<C: ContainerMut> SeededLweBootstrapKey<C> {
    /// A key with the same parameters that borrows the data mutably: what is written
    /// through it is what the key holds afterwards.
    pub fn as_mut_view(&mut self) -> (v: SeededLweBootstrapKey<&mut [C::Element]>)
        requires
            old(self)@.well_formed(),
        ensures
            v@ == old(self)@,
            final(self)@ == old(self)@.with_data((*final(v.container()))@),
            (*v.container())@ == old(self)@.data,
            has_resolved(v) ==> final(self)@ == old(self)@,
            (*final(v.container()))@.len() == old(self)@.data.len() ==> final(self)@.well_formed(),
    {
        let list = self.ggsw_list.as_mut_view();
        let v = SeededLweBootstrapKey { ggsw_list: list };
        proof {
            SeededGgswCiphertextList::lemma_resolved(v.ggsw_list);
        }
        v
    }
}

impl<'a, T: UnsignedInteger> SeededLweBootstrapKey<&'a mut [T]> {
    /// Once a mutable view is no longer used, the data it borrows ends as the view
    /// last held it: dropping a view untouched leaves the borrowed data unchanged.
    pub broadcast proof fn lemma_resolved(self)
        ensures
            #[trigger] has_resolved(self) ==> (*final(self.container()))@ == self@.data,
    {
        SeededGgswCiphertextList::lemma_resolved(self.ggsw_list);
    }
}

impl<Scalar: UnsignedInteger> SeededLweBootstrapKeyOwned<Scalar> {
    /// A key with one seeded GGSW ciphertext per element of an input LWE secret key
    /// of dimension `input_lwe_dimension`, every element of which is `fill_with`.
    pub fn new(
        fill_with: Scalar,
        glwe_size: GlweSize,
        polynomial_size: PolynomialSize,
        decomp_base_log: DecompositionBaseLog,
        decomp_level_count: DecompositionLevelCount,
        input_lwe_dimension: LweDimension,
        compression_seed: CompressionSeed,
        ciphertext_modulus: CiphertextModulus<Scalar>,
    ) -> (key: Self)
        requires
            ciphertext_modulus.spec_is_compatible_with_native_modulus(),
            valid_seeded_ggsw_shape(glwe_size, polynomial_size, decomp_level_count),
            input_lwe_dimension.0 * seeded_ggsw_size(glwe_size, polynomial_size, decomp_level_count)
                <= usize::MAX,
        ensures
            key@ == (SeededGgswListView {
                data: Seq::new(
                    (input_lwe_dimension.0 as nat) * seeded_ggsw_size(
                        glwe_size,
                        polynomial_size,
                        decomp_level_count,
                    ),
                    |i: int| fill_with,
                ),
                glwe_size,
                polynomial_size,
                decomp_base_log,
                decomp_level_count,
                compression_seed,
                ciphertext_modulus,
            }),
            key@.well_formed(),
            key@.ggsw_count() == input_lwe_dimension.0,
    {
        SeededLweBootstrapKey {
            ggsw_list: SeededGgswCiphertextList::new(
                fill_with,
                glwe_size,
                polynomial_size,
                decomp_base_log,
                decomp_level_count,
                GgswCiphertextCount(input_lwe_dimension.0),
                compression_seed,
                ciphertext_modulus,
            ),
        }
    }
}

} // verus!
