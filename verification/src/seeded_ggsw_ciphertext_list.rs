//! Lists of seeded GGSW ciphertexts: for every row of every level of every GGSW
//! ciphertext only the body polynomial is stored, the masks being regenerated from
//! the compression seed.
use vstd::prelude::*;

use crate::conformance::{checked_product4, GgswCiphertextListConformanceParams};
use crate::container::{Container, ContainerMut};
use crate::numeric::UnsignedInteger;
use crate::parameters::{
    CiphertextModulus, CompressionSeed, DecompositionBaseLog, DecompositionLevelCount,
    GgswCiphertextCount, GlweSize, PolynomialSize,
};

verus! {

/// Number of elements of one level of a seeded GGSW ciphertext: one body polynomial
/// for each of the `glwe_size` rows.
pub open spec fn seeded_ggsw_level_size(glwe_size: GlweSize, polynomial_size: PolynomialSize) -> nat {
    (glwe_size.0 as nat) * (polynomial_size.0 as nat)
}

/// Number of elements of one seeded GGSW ciphertext.
pub open spec fn seeded_ggsw_size(
    glwe_size: GlweSize,
    polynomial_size: PolynomialSize,
    decomp_level_count: DecompositionLevelCount,
) -> nat {
    (decomp_level_count.0 as nat) * seeded_ggsw_level_size(glwe_size, polynomial_size)
}

/// The shape parameters of a seeded GGSW ciphertext admit a ciphertext of at least
/// one element whose size fits in memory.
pub open spec fn valid_seeded_ggsw_shape(
    glwe_size: GlweSize,
    polynomial_size: PolynomialSize,
    decomp_level_count: DecompositionLevelCount,
) -> bool {
    0 < seeded_ggsw_size(glwe_size, polynomial_size, decomp_level_count) <= usize::MAX
}

/// Under a valid shape every factor is positive and every partial product fits.
pub proof fn lemma_valid_seeded_ggsw_shape(
    glwe_size: GlweSize,
    polynomial_size: PolynomialSize,
    decomp_level_count: DecompositionLevelCount,
)
    requires
        valid_seeded_ggsw_shape(glwe_size, polynomial_size, decomp_level_count),
    ensures
        glwe_size.0 >= 1,
        polynomial_size.0 >= 1,
        decomp_level_count.0 >= 1,
        seeded_ggsw_level_size(glwe_size, polynomial_size) <= seeded_ggsw_size(
            glwe_size,
            polynomial_size,
            decomp_level_count,
        ),
        polynomial_size.0 <= seeded_ggsw_level_size(glwe_size, polynomial_size),
        glwe_size.0 <= seeded_ggsw_level_size(glwe_size, polynomial_size),
{
    let g = glwe_size.0 as int;
    let n = polynomial_size.0 as int;
    let l = decomp_level_count.0 as int;
    assert(g >= 1 && n >= 1 && l >= 1) by (nonlinear_arith)
        requires
            g >= 0,
            n >= 0,
            l >= 0,
            0 < l * (g * n),
    ;
    assert(g * n <= l * (g * n) && n <= g * n && g <= g * n) by (nonlinear_arith)
        requires
            g >= 1,
            n >= 1,
            l >= 1,
    ;
}

/// Number of elements of one level of a seeded GGSW ciphertext.
pub fn seeded_ggsw_level_matrix_size(glwe_size: GlweSize, polynomial_size: PolynomialSize) -> (s:
    usize)
    requires
        seeded_ggsw_level_size(glwe_size, polynomial_size) <= usize::MAX,
    ensures
        s == seeded_ggsw_level_size(glwe_size, polynomial_size),
{
    glwe_size.0 * polynomial_size.0
}

/// Number of elements of one seeded GGSW ciphertext.
pub fn seeded_ggsw_ciphertext_size(
    glwe_size: GlweSize,
    polynomial_size: PolynomialSize,
    decomp_level_count: DecompositionLevelCount,
) -> (s: usize)
    requires
        valid_seeded_ggsw_shape(glwe_size, polynomial_size, decomp_level_count),
    ensures
        s == seeded_ggsw_size(glwe_size, polynomial_size, decomp_level_count),
{
    proof {
        lemma_valid_seeded_ggsw_shape(glwe_size, polynomial_size, decomp_level_count);
    }
    decomp_level_count.0 * seeded_ggsw_level_matrix_size(glwe_size, polynomial_size)
}

/// The mathematical content of a list of seeded GGSW ciphertexts.
pub ghost struct SeededGgswListView<T: UnsignedInteger> {
    pub data: Seq<T>,
    pub glwe_size: GlweSize,
    pub polynomial_size: PolynomialSize,
    pub decomp_base_log: DecompositionBaseLog,
    pub decomp_level_count: DecompositionLevelCount,
    pub compression_seed: CompressionSeed,
    pub ciphertext_modulus: CiphertextModulus<T>,
}

impl<T: UnsignedInteger> SeededGgswListView<T> {
    /// The list holds `params.len` seeded GGSW ciphertexts of exactly the given
    /// parameters.
    pub open spec fn conforms_to(self, params: GgswCiphertextListConformanceParams<T>) -> bool {
        &&& self.data.len() == params.len * self.ggsw_size()
        &&& self.decomp_base_log == params.ggsw_params.decomp_base_log
        &&& self.decomp_level_count == params.ggsw_params.decomp_level_count
        &&& self.glwe_size == params.ggsw_params.glwe_size
        &&& self.polynomial_size == params.ggsw_params.polynomial_size
        &&& self.ciphertext_modulus.value() == params.ggsw_params.ciphertext_modulus.value()
    }

    /// Number of elements of each seeded GGSW ciphertext of the list.
    pub open spec fn ggsw_size(self) -> nat {
        seeded_ggsw_size(self.glwe_size, self.polynomial_size, self.decomp_level_count)
    }

    /// Number of seeded GGSW ciphertexts in the list.
    pub open spec fn ggsw_count(self) -> nat {
        self.data.len() / self.ggsw_size()
    }

    /// The data splits into whole seeded GGSW ciphertexts of a valid shape, under a
    /// modulus that seeded entities support.
    pub open spec fn well_formed(self) -> bool {
        &&& valid_seeded_ggsw_shape(self.glwe_size, self.polynomial_size, self.decomp_level_count)
        &&& self.data.len() % self.ggsw_size() == 0
        &&& self.ciphertext_modulus.spec_is_compatible_with_native_modulus()
    }

    /// Number of GLWE rows stored, one body polynomial each.
    pub open spec fn row_count(self) -> nat {
        self.data.len() / (self.polynomial_size.0 as nat)
    }

    /// Number of mask elements of one GLWE row: `glwe_size - 1` polynomials.
    pub open spec fn row_mask_len(self) -> nat {
        ((self.glwe_size.0 - 1) as nat) * (self.polynomial_size.0 as nat)
    }

    /// Number of mask elements that decompressing the whole list consumes.
    pub open spec fn mask_len(self) -> nat {
        self.row_count() * self.row_mask_len()
    }

    /// The factor `2^BITS / modulus` that brings mask values drawn below a power of
    /// two modulus onto the native torus; 1 for the native modulus.
    pub open spec fn mask_scaling_factor(self) -> nat {
        vstd::arithmetic::power2::pow2(T::spec_bits()) / self.ciphertext_modulus.value()
    }

    /// The mask values as a decompressed ciphertext holds them: each multiplied by the
    /// scaling factor, wrapped around `2^BITS`.
    pub open spec fn scaled_masks(self, masks: Seq<T>) -> Seq<T> {
        masks.map_values(|x: T| x.spec_scaled(self.mask_scaling_factor()))
    }

    /// The same list with the data replaced.
    pub open spec fn with_data(self, data: Seq<T>) -> Self {
        SeededGgswListView { data, ..self }
    }
}

/// A well formed list conforms to a parameter set exactly when it holds
/// `params.len` seeded GGSW ciphertexts and every one of its parameters, the
/// modulus by value, equals the one the set asks for.
pub proof fn lemma_conforms_to_iff_same_parameters<T: UnsignedInteger>(
    v: SeededGgswListView<T>,
    params: GgswCiphertextListConformanceParams<T>,
)
    requires
        v.well_formed(),
    ensures
        v.conforms_to(params) <==> {
            &&& v.ggsw_count() == params.len
            &&& v.glwe_size == params.ggsw_params.glwe_size
            &&& v.polynomial_size == params.ggsw_params.polynomial_size
            &&& v.decomp_base_log == params.ggsw_params.decomp_base_log
            &&& v.decomp_level_count == params.ggsw_params.decomp_level_count
            &&& v.ciphertext_modulus.value() == params.ggsw_params.ciphertext_modulus.value()
        },
{
    let s = v.ggsw_size() as int;
    let len = v.data.len() as int;
    vstd::arithmetic::div_mod::lemma_fundamental_div_mod(len, s);
    assert(len == (len / s) * s) by (nonlinear_arith)
        requires
            len == s * (len / s) + 0,
    ;
    if len == params.len * s {
        vstd::arithmetic::div_mod::lemma_fundamental_div_mod_converse(len, s, params.len as int, 0);
    }
}

/// A list of seeded GGSW ciphertexts stored in a container.
#[derive(Clone, Debug, PartialEq, Eq)]
pub struct SeededGgswCiphertextList<C: Container> {
    data: C,
    glwe_size: GlweSize,
    polynomial_size: PolynomialSize,
    decomp_base_log: DecompositionBaseLog,
    decomp_level_count: DecompositionLevelCount,
    compression_seed: CompressionSeed,
    ciphertext_modulus: CiphertextModulus<C::Element>,
}

impl<C: Container> View for SeededGgswCiphertextList<C> {
    type V = SeededGgswListView<C::Element>;

    closed spec fn view(&self) -> SeededGgswListView<C::Element> {
        SeededGgswListView {
            data: self.data.items(),
            glwe_size: self.glwe_size,
            polynomial_size: self.polynomial_size,
            decomp_base_log: self.decomp_base_log,
            decomp_level_count: self.decomp_level_count,
            compression_seed: self.compression_seed,
            ciphertext_modulus: self.ciphertext_modulus,
        }
    }
}

impl<C: Container> SeededGgswCiphertextList<C> {
    /// The container the list is stored in.
    pub closed spec fn container(&self) -> C {
        self.data
    }

    /// A list is determined by its container and its parameters.
    pub proof fn lemma_determined_by_parts(a: Self, b: Self)
        requires
            a.container() == b.container(),
            a@ == b@,
        ensures
            a == b,
    {
    }

    /// Wrap a container as a list of seeded GGSW ciphertexts of the given shape.
    pub fn from_container(
        container: C,
        glwe_size: GlweSize,
        polynomial_size: PolynomialSize,
        decomp_base_log: DecompositionBaseLog,
        decomp_level_count: DecompositionLevelCount,
        compression_seed: CompressionSeed,
        ciphertext_modulus: CiphertextModulus<C::Element>,
    ) -> (list: Self)
        requires
            valid_seeded_ggsw_shape(glwe_size, polynomial_size, decomp_level_count),
            container.items().len() % seeded_ggsw_size(
                glwe_size,
                polynomial_size,
                decomp_level_count,
            ) == 0,
            ciphertext_modulus.spec_is_compatible_with_native_modulus(),
        ensures
            list.container() == container,
            list@ == (SeededGgswListView {
                data: container.items(),
                glwe_size,
                polynomial_size,
                decomp_base_log,
                decomp_level_count,
                compression_seed,
                ciphertext_modulus,
            }),
    {
        SeededGgswCiphertextList {
            data: container,
            glwe_size,
            polynomial_size,
            decomp_base_log,
            decomp_level_count,
            compression_seed,
            ciphertext_modulus,
        }
    }

    pub fn glwe_size(&self) -> (r: GlweSize)
        ensures
            r == self@.glwe_size,
    {
        self.glwe_size
    }

    pub fn polynomial_size(&self) -> (r: PolynomialSize)
        ensures
            r == self@.polynomial_size,
    {
        self.polynomial_size
    }

    pub fn decomposition_base_log(&self) -> (r: DecompositionBaseLog)
        ensures
            r == self@.decomp_base_log,
    {
        self.decomp_base_log
    }

    pub fn decomposition_level_count(&self) -> (r: DecompositionLevelCount)
        ensures
            r == self@.decomp_level_count,
    {
        self.decomp_level_count
    }

    pub fn compression_seed(&self) -> (r: CompressionSeed)
        ensures
            r == self@.compression_seed,
    {
        self.compression_seed
    }

    pub fn ciphertext_modulus(&self) -> (r: CiphertextModulus<C::Element>)
        ensures
            r == self@.ciphertext_modulus,
    {
        self.ciphertext_modulus
    }

    /// Number of seeded GGSW ciphertexts in the list.
    pub fn ggsw_ciphertext_count(&self) -> (r: GgswCiphertextCount)
        requires
            self@.well_formed(),
        ensures
            r.0 == self@.ggsw_count(),
    {
        GgswCiphertextCount(
            self.data.container_len() / seeded_ggsw_ciphertext_size(
                self.glwe_size,
                self.polynomial_size,
                self.decomp_level_count,
            ),
        )
    }

    /// Whether the list holds `params.len` seeded GGSW ciphertexts of exactly the
    /// given parameters.
    pub fn is_conformant(&self, params: &GgswCiphertextListConformanceParams<C::Element>) -> (b:
        bool)
        ensures
            b == self@.conforms_to(*params),
            self@.well_formed() ==> (b <==> {
                &&& self@.ggsw_count() == params.len
                &&& self@.glwe_size == params.ggsw_params.glwe_size
                &&& self@.polynomial_size == params.ggsw_params.polynomial_size
                &&& self@.decomp_base_log == params.ggsw_params.decomp_base_log
                &&& self@.decomp_level_count == params.ggsw_params.decomp_level_count
                &&& self@.ciphertext_modulus.value()
                    == params.ggsw_params.ciphertext_modulus.value()
            }),
    {
        let expected = checked_product4(
            params.len,
            self.decomp_level_count.0,
            self.glwe_size.0,
            self.polynomial_size.0,
        );
        proof {
            let p = params.len as int;
            let l = self.decomp_level_count.0 as int;
            let g = self.glwe_size.0 as int;
            let n = self.polynomial_size.0 as int;
            assert(p * l * g * n == p * (l * (g * n))) by (nonlinear_arith);
        }
        let data_len = self.data.container_len();
        let len_ok = match expected {
            Some(e) => data_len == e,
            None => false,
        };
        let modulus_ok = self.ciphertext_modulus == params.ggsw_params.ciphertext_modulus;
        proof {
            if self@.well_formed() {
                lemma_conforms_to_iff_same_parameters(self@, *params);
            }
        }
        len_ok && modulus_ok && self.decomp_base_log == params.ggsw_params.decomp_base_log
            && self.decomp_level_count == params.ggsw_params.decomp_level_count
            && self.glwe_size == params.ggsw_params.glwe_size && self.polynomial_size
            == params.ggsw_params.polynomial_size
    }

    /// The elements of the list, in order.
    pub fn as_slice(&self) -> (s: &[C::Element])
        ensures
            s@ == self@.data,
    {
        self.data.as_slice()
    }

    /// Give back the container.
    pub fn into_container(self) -> (c: C)
        ensures
            c == self.container(),
            c.items() == self@.data,
    {
        self.data
    }

    /// A list with the same parameters that borrows the data.
    pub fn as_view(&self) -> (v: SeededGgswCiphertextList<&[C::Element]>)
        requires
            self@.well_formed(),
        ensures
            v@ == self@,
    {
        SeededGgswCiphertextList::from_container(
            self.data.as_slice(),
            self.glwe_size,
            self.polynomial_size,
            self.decomp_base_log,
            self.decomp_level_count,
            self.compression_seed,
            self.ciphertext_modulus,
        )
    }
}

/// A vector of `len` copies of `value`.
pub(crate) fn filled_vec<T: Copy>(value: T, len: usize) -> (v: Vec<T>)
    ensures
        v@ == Seq::new(len as nat, |i: int| value),
{
    let mut v: Vec<T> = Vec::new();
    let mut i: usize = 0;
    while i < len
        invariant
            i <= len,
            v@ == Seq::new(i as nat, |j: int| value),
        decreases len - i,
    {
        v.push(value);
        i = i + 1;
    }
    v
}

impl<Scalar: UnsignedInteger> SeededGgswCiphertextList<Vec<Scalar>> {
    /// A list of `ciphertext_count` seeded GGSW ciphertexts of the given shape, every
    /// element of which is `fill_with`.
    pub fn new(
        fill_with: Scalar,
        glwe_size: GlweSize,
        polynomial_size: PolynomialSize,
        decomp_base_log: DecompositionBaseLog,
        decomp_level_count: DecompositionLevelCount,
        ciphertext_count: GgswCiphertextCount,
        compression_seed: CompressionSeed,
        ciphertext_modulus: CiphertextModulus<Scalar>,
    ) -> (list: Self)
        requires
            valid_seeded_ggsw_shape(glwe_size, polynomial_size, decomp_level_count),
            ciphertext_count.0 * seeded_ggsw_size(glwe_size, polynomial_size, decomp_level_count)
                <= usize::MAX,
            ciphertext_modulus.spec_is_compatible_with_native_modulus(),
        ensures
            list@ == (SeededGgswListView {
                data: Seq::new(
                    (ciphertext_count.0 as nat) * seeded_ggsw_size(
                        glwe_size,
                        polynomial_size,
                        decomp_level_count,
                    ),
                    |i: int| fill_with,
                ),
                glwe_size,
                polynomial_size,
                decomp_base_log,
                decomp_level_count,
                compression_seed,
                ciphertext_modulus,
            }),
            list@.well_formed(),
            list@.ggsw_count() == ciphertext_count.0,
    {
        let size = seeded_ggsw_ciphertext_size(glwe_size, polynomial_size, decomp_level_count);
        let len = ciphertext_count.0 * size;
        proof {
            vstd::arithmetic::div_mod::lemma_mod_multiples_basic(ciphertext_count.0 as int, size as int);
            vstd::arithmetic::div_mod::lemma_div_multiples_vanish(ciphertext_count.0 as int, size as int);
            vstd::arithmetic::mul::lemma_mul_is_commutative(ciphertext_count.0 as int, size as int);
        }
        Self::from_container(
            filled_vec(fill_with, len),
            glwe_size,
            polynomial_size,
            decomp_base_log,
            decomp_level_count,
            compression_seed,
            ciphertext_modulus,
        )
    }
}

impl<'a, T: UnsignedInteger> SeededGgswCiphertextList<&'a mut [T]> {
    /// Once a mutable view is no longer used, the data it borrows ends as the view
    /// last held it: dropping a view untouched leaves the borrowed data unchanged.
    pub broadcast proof fn lemma_resolved(self)
        ensures
            #[trigger] has_resolved(self) ==> (*final(self.container()))@ == self@.data,
    {
    }
}

impl<C: ContainerMut> SeededGgswCiphertextList<C> {
    /// A list with the same parameters that borrows the data mutably: what is written
    /// through it is what the list holds afterwards.
    pub fn as_mut_view(&mut self) -> (v: SeededGgswCiphertextList<&mut [C::Element]>)
        requires
            old(self)@.well_formed(),
        ensures
            v@ == old(self)@,
            final(self)@ == old(self)@.with_data((*final(v.container()))@),
            (*v.container())@ == old(self)@.data,
            has_resolved(v) ==> final(self)@ == old(self)@,
            (*final(v.container()))@.len() == old(self)@.data.len() ==> final(self)@.well_formed(),
    {
        let glwe_size = self.glwe_size;
        let polynomial_size = self.polynomial_size;
        let decomp_base_log = self.decomp_base_log;
        let decomp_level_count = self.decomp_level_count;
        let compression_seed = self.compression_seed;
        let ciphertext_modulus = self.ciphertext_modulus;
        let v = SeededGgswCiphertextList::from_container(
            self.data.as_mut_slice(),
            glwe_size,
            polynomial_size,
            decomp_base_log,
            decomp_level_count,
            compression_seed,
            ciphertext_modulus,
        );
        proof {
            SeededGgswCiphertextList::<&mut [C::Element]>::lemma_resolved(v);
        }
        v
    }
}

} // verus!
