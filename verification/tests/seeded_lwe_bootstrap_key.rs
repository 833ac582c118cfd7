use seeded_bootstrap_key::conformance::{
    GgswCiphertextListConformanceParams, LweBootstrapKeyConformanceParams,
};
use seeded_bootstrap_key::decompression::decompress_rows;
use seeded_bootstrap_key::lwe_bootstrap_key::LweBootstrapKey;
use seeded_bootstrap_key::parameters::{
    CiphertextModulus, CompressionSeed, DecompositionBaseLog, DecompositionLevelCount, GlweSize,
    LweDimension, PolynomialSize, Seed,
};
use seeded_bootstrap_key::seeded_lwe_bootstrap_key::SeededLweBootstrapKey;

fn seed() -> CompressionSeed {
    CompressionSeed { seed: Seed(0x1234_5678_9abc_def0) }
}

#[test]
fn doc_example_parameters_and_round_trip() {
    let glwe_size = GlweSize(2);
    let polynomial_size = PolynomialSize(1024);
    let decomp_base_log = DecompositionBaseLog(8);
    let decomp_level_count = DecompositionLevelCount(3);
    let input_lwe_dimension = LweDimension(600);
    let ciphertext_modulus = CiphertextModulus::<u64>::new_native();

    let bsk = SeededLweBootstrapKey::new(
        0u64,
        glwe_size,
        polynomial_size,
        decomp_base_log,
        decomp_level_count,
        input_lwe_dimension,
        seed(),
        ciphertext_modulus,
    );

    assert_eq!(bsk.glwe_size(), glwe_size);
    assert_eq!(bsk.polynomial_size(), polynomial_size);
    assert_eq!(bsk.decomposition_base_log(), decomp_base_log);
    assert_eq!(bsk.decomposition_level_count(), decomp_level_count);
    assert_eq!(bsk.ciphertext_modulus(), ciphertext_modulus);
    assert_eq!(bsk.input_lwe_dimension(), input_lwe_dimension);
    assert_eq!(
        bsk.output_lwe_dimension(),
        glwe_size.to_glwe_dimension().to_equivalent_lwe_dimension(polynomial_size)
    );
    assert_eq!(bsk.output_lwe_dimension(), LweDimension(1024));

    let compression_seed = bsk.compression_seed();
    assert_eq!(compression_seed, seed());

    let underlying_container: Vec<u64> = bsk.into_container();
    assert_eq!(underlying_container.len(), 600 * 3 * 2 * 1024);
    assert!(underlying_container.iter().all(|&x| x == 0));

    let bsk = SeededLweBootstrapKey::from_container(
        underlying_container,
        glwe_size,
        polynomial_size,
        decomp_base_log,
        decomp_level_count,
        compression_seed,
        ciphertext_modulus,
    );

    assert_eq!(bsk.glwe_size(), glwe_size);
    assert_eq!(bsk.polynomial_size(), polynomial_size);
    assert_eq!(bsk.decomposition_base_log(), decomp_base_log);
    assert_eq!(bsk.decomposition_level_count(), decomp_level_count);
    assert_eq!(bsk.ciphertext_modulus(), ciphertext_modulus);
    assert_eq!(bsk.input_lwe_dimension(), input_lwe_dimension);
    assert_eq!(bsk.output_lwe_dimension(), LweDimension(1024));

    let mask_len = 600 * 3 * 2 * 1024;
    let masks = vec![0u64; mask_len];
    let bsk = bsk.decompress_into_lwe_bootstrap_key(&masks);

    assert_eq!(bsk.glwe_size(), glwe_size);
    assert_eq!(bsk.polynomial_size(), polynomial_size);
    assert_eq!(bsk.decomposition_base_log(), decomp_base_log);
    assert_eq!(bsk.decomposition_level_count(), decomp_level_count);
    assert_eq!(bsk.ciphertext_modulus(), ciphertext_modulus);
    assert_eq!(bsk.input_lwe_dimension(), input_lwe_dimension);
    assert_eq!(
        bsk.output_lwe_dimension(),
        glwe_size.to_glwe_dimension().to_equivalent_lwe_dimension(polynomial_size)
    );
    assert_eq!(bsk.as_slice().len(), 600 * 3 * 2 * 2 * 1024);
}

#[test]
fn new_fills_every_element() {
    let bsk = SeededLweBootstrapKey::new(
        7u32,
        GlweSize(3),
        PolynomialSize(4),
        DecompositionBaseLog(5),
        DecompositionLevelCount(2),
        LweDimension(5),
        seed(),
        CiphertextModulus::<u32>::new_native(),
    );
    assert_eq!(bsk.as_slice().len(), 5 * 2 * 3 * 4);
    assert!(bsk.as_slice().iter().all(|&x| x == 7));
    assert_eq!(bsk.input_lwe_dimension(), LweDimension(5));
    assert_eq!(bsk.output_lwe_dimension(), LweDimension(8));
    assert_eq!(bsk.ggsw_ciphertext_count().0, 5);
}

#[test]
fn empty_key_has_input_dimension_zero() {
    let bsk = SeededLweBootstrapKey::new(
        1u64,
        GlweSize(2),
        PolynomialSize(8),
        DecompositionBaseLog(4),
        DecompositionLevelCount(2),
        LweDimension(0),
        seed(),
        CiphertextModulus::<u64>::new_native(),
    );
    assert_eq!(bsk.input_lwe_dimension(), LweDimension(0));
    assert_eq!(bsk.output_lwe_dimension(), LweDimension(8));
    let out = bsk.decompress_into_lwe_bootstrap_key(&[]);
    assert_eq!(out.input_lwe_dimension(), LweDimension(0));
    assert!(out.as_slice().is_empty());
}

#[test]
fn glwe_size_one_has_output_dimension_zero() {
    let bsk = SeededLweBootstrapKey::from_container(
        vec![1u64, 2, 3, 4],
        GlweSize(1),
        PolynomialSize(2),
        DecompositionBaseLog(4),
        DecompositionLevelCount(1),
        seed(),
        CiphertextModulus::<u64>::new_native(),
    );
    assert_eq!(bsk.input_lwe_dimension(), LweDimension(2));
    assert_eq!(bsk.output_lwe_dimension(), LweDimension(0));
    let out = bsk.decompress_into_lwe_bootstrap_key(&[]);
    assert_eq!(out.as_slice(), &[1, 2, 3, 4]);
}

#[test]
fn decompression_interleaves_masks_and_bodies() {
    // glwe_size 2, polynomial size 2, one level, two GGSW ciphertexts: four rows of
    // two body coefficients, each row getting two mask coefficients in front.
    let bodies: Vec<u64> = (1..=8).collect();
    let masks: Vec<u64> = (101..=108).collect();
    let bsk = SeededLweBootstrapKey::from_container(
        bodies,
        GlweSize(2),
        PolynomialSize(2),
        DecompositionBaseLog(3),
        DecompositionLevelCount(1),
        seed(),
        CiphertextModulus::<u64>::new_native(),
    );
    assert_eq!(bsk.input_lwe_dimension(), LweDimension(2));
    let out = bsk.decompress_into_lwe_bootstrap_key(&masks);
    assert_eq!(
        out.as_slice(),
        &[101, 102, 1, 2, 103, 104, 3, 4, 105, 106, 5, 6, 107, 108, 7, 8]
    );
    assert_eq!(out.input_lwe_dimension(), LweDimension(2));
    assert_eq!(out.output_lwe_dimension(), LweDimension(2));
    assert_eq!(out.decomposition_base_log(), DecompositionBaseLog(3));
}

#[test]
fn decompression_with_three_polynomials_per_row() {
    // glwe_size 3, polynomial size 1, one level, one GGSW: three rows, each with two
    // mask coefficients and one body coefficient.
    let bsk = SeededLweBootstrapKey::from_container(
        vec![10u8, 20, 30],
        GlweSize(3),
        PolynomialSize(1),
        DecompositionBaseLog(2),
        DecompositionLevelCount(1),
        seed(),
        CiphertextModulus::<u8>::new_native(),
    );
    let out = bsk.decompress_into_lwe_bootstrap_key(&[1, 2, 3, 4, 5, 6]);
    assert_eq!(out.as_slice(), &[1, 2, 10, 3, 4, 20, 5, 6, 30]);
    assert_eq!(out.input_lwe_dimension(), LweDimension(1));
}

#[test]
fn decompressing_halves_gives_the_halves_of_the_whole() {
    let bodies: Vec<u64> = (1..=8).collect();
    let masks: Vec<u64> = (101..=108).collect();
    let whole = decompress_rows(&bodies, &masks, 2, 2);
    let mut halves = decompress_rows(&bodies[..4], &masks[..4], 2, 2);
    halves.extend(decompress_rows(&bodies[4..], &masks[4..], 2, 2));
    assert_eq!(whole, halves);
}

#[test]
fn as_view_keeps_parameters_and_contents() {
    let bsk = SeededLweBootstrapKey::from_container(
        (0..24u64).collect::<Vec<u64>>(),
        GlweSize(2),
        PolynomialSize(4),
        DecompositionBaseLog(8),
        DecompositionLevelCount(3),
        seed(),
        CiphertextModulus::<u64>::new_native(),
    );
    let view = bsk.as_view();
    assert_eq!(view.glwe_size(), GlweSize(2));
    assert_eq!(view.polynomial_size(), PolynomialSize(4));
    assert_eq!(view.decomposition_base_log(), DecompositionBaseLog(8));
    assert_eq!(view.decomposition_level_count(), DecompositionLevelCount(3));
    assert_eq!(view.compression_seed(), seed());
    assert_eq!(view.input_lwe_dimension(), LweDimension(1));
    assert_eq!(view.into_container(), bsk.as_slice());
}

#[test]
fn writes_through_mut_view_reach_the_key() {
    let mut bsk = SeededLweBootstrapKey::from_container(
        vec![1u64; 48],
        GlweSize(2),
        PolynomialSize(4),
        DecompositionBaseLog(8),
        DecompositionLevelCount(3),
        seed(),
        CiphertextModulus::<u64>::new_native(),
    );
    {
        let view = bsk.as_mut_view();
        assert_eq!(view.input_lwe_dimension(), LweDimension(2));
        let data = view.into_container();
        data[0] = 5;
        data[47] = 9;
    }
    assert_eq!(bsk.as_slice()[0], 5);
    assert_eq!(bsk.as_slice()[1], 1);
    assert_eq!(bsk.as_slice()[47], 9);
    assert_eq!(bsk.input_lwe_dimension(), LweDimension(2));
}

fn own_params(modulus: CiphertextModulus<u64>) -> LweBootstrapKeyConformanceParams<u64> {
    LweBootstrapKeyConformanceParams {
        decomp_base_log: DecompositionBaseLog(8),
        decomp_level_count: DecompositionLevelCount(3),
        input_lwe_dimension: LweDimension(2),
        output_glwe_size: GlweSize(2),
        polynomial_size: PolynomialSize(4),
        ciphertext_modulus: modulus,
    }
}

#[test]
fn key_conforms_to_its_own_parameters_only() {
    let modulus = CiphertextModulus::<u64>::new_native();
    let bsk = SeededLweBootstrapKey::new(
        0u64,
        GlweSize(2),
        PolynomialSize(4),
        DecompositionBaseLog(8),
        DecompositionLevelCount(3),
        LweDimension(2),
        seed(),
        modulus,
    );
    assert!(bsk.is_conformant(&own_params(modulus)));

    let mut p = own_params(modulus);
    p.input_lwe_dimension = LweDimension(3);
    assert!(!bsk.is_conformant(&p));

    let mut p = own_params(modulus);
    p.decomp_base_log = DecompositionBaseLog(7);
    assert!(!bsk.is_conformant(&p));

    let mut p = own_params(modulus);
    p.decomp_level_count = DecompositionLevelCount(2);
    assert!(!bsk.is_conformant(&p));

    let mut p = own_params(modulus);
    p.output_glwe_size = GlweSize(3);
    assert!(!bsk.is_conformant(&p));

    let mut p = own_params(modulus);
    p.polynomial_size = PolynomialSize(8);
    assert!(!bsk.is_conformant(&p));

    let p = own_params(CiphertextModulus::<u64>::try_new(1 << 32).unwrap());
    assert!(!bsk.is_conformant(&p));

    let mut p = own_params(modulus);
    p.input_lwe_dimension = LweDimension(usize::MAX);
    assert!(!bsk.is_conformant(&p));
}

#[test]
fn conformance_params_of_a_bootstrap_key() {
    let modulus = CiphertextModulus::<u64>::new_native();
    let p = own_params(modulus);
    let list: GgswCiphertextListConformanceParams<u64> = (&p).into();
    assert_eq!(list.len, 2);
    assert_eq!(list.ggsw_params.glwe_size, GlweSize(2));
    assert_eq!(list.ggsw_params.polynomial_size, PolynomialSize(4));
    assert_eq!(list.ggsw_params.decomp_base_log, DecompositionBaseLog(8));
    assert_eq!(list.ggsw_params.decomp_level_count, DecompositionLevelCount(3));
    assert_eq!(list.ggsw_params.ciphertext_modulus, modulus);
}

#[test]
fn power_of_two_custom_modulus_is_accepted() {
    let modulus = CiphertextModulus::<u64>::try_new(1 << 48).unwrap();
    assert!(!modulus.is_native_modulus());
    assert!(modulus.is_power_of_two());
    assert!(modulus.is_compatible_with_native_modulus());
    let bsk = SeededLweBootstrapKey::new(
        0u64,
        GlweSize(2),
        PolynomialSize(2),
        DecompositionBaseLog(8),
        DecompositionLevelCount(1),
        LweDimension(3),
        seed(),
        modulus,
    );
    assert_eq!(bsk.ciphertext_modulus().get_custom_modulus(), 1 << 48);
}

#[test]
fn lwe_bootstrap_key_from_container() {
    let bsk = LweBootstrapKey::from_container(
        vec![0u64; 2 * 2 * 2 * 4],
        GlweSize(2),
        PolynomialSize(4),
        DecompositionBaseLog(8),
        DecompositionLevelCount(1),
        CiphertextModulus::<u64>::new_native(),
    );
    assert_eq!(bsk.input_lwe_dimension(), LweDimension(2));
    assert_eq!(bsk.output_lwe_dimension(), LweDimension(4));
    assert_eq!(bsk.into_container().len(), 32);
}

#[test]
fn untouched_mut_view_leaves_the_key_unchanged() {
    let mut bsk = SeededLweBootstrapKey::from_container(
        (0..48u64).collect::<Vec<u64>>(),
        GlweSize(2),
        PolynomialSize(4),
        DecompositionBaseLog(8),
        DecompositionLevelCount(3),
        seed(),
        CiphertextModulus::<u64>::new_native(),
    );
    let before = bsk.clone();
    {
        let _view = bsk.as_mut_view();
    }
    assert_eq!(bsk, before);
    assert_eq!(bsk.input_lwe_dimension(), LweDimension(2));
}

#[test]
fn masks_are_scaled_to_the_native_torus_under_a_smaller_modulus() {
    // modulus 2^48 on u64: masks are multiplied by 2^16; bodies are copied as stored.
    let modulus = CiphertextModulus::<u64>::try_new(1 << 48).unwrap();
    let bsk = SeededLweBootstrapKey::from_container(
        vec![7u64, 8, 9, 10],
        GlweSize(2),
        PolynomialSize(2),
        DecompositionBaseLog(8),
        DecompositionLevelCount(1),
        seed(),
        modulus,
    );
    let masks = [3u64, 5, (1 << 48) - 1, 0];
    assert_eq!(
        bsk.scale_masks_to_native_torus(&masks),
        vec![3 << 16, 5 << 16, ((1u64 << 48) - 1) << 16, 0]
    );
    let out = bsk.decompress_into_lwe_bootstrap_key(&masks);
    assert_eq!(
        out.as_slice(),
        &[3 << 16, 5 << 16, 7, 8, ((1u64 << 48) - 1) << 16, 0, 9, 10]
    );
    assert_eq!(out.ciphertext_modulus(), modulus);
}

#[test]
fn masks_are_kept_under_the_native_modulus() {
    let bsk = SeededLweBootstrapKey::from_container(
        vec![7u32, 8],
        GlweSize(2),
        PolynomialSize(2),
        DecompositionBaseLog(8),
        DecompositionLevelCount(1),
        seed(),
        CiphertextModulus::<u32>::new_native(),
    );
    assert_eq!(bsk.scale_masks_to_native_torus(&[u32::MAX, 1]), vec![u32::MAX, 1]);
    let out = bsk.decompress_into_lwe_bootstrap_key(&[u32::MAX, 1]);
    assert_eq!(out.as_slice(), &[u32::MAX, 1, 7, 8]);
}

#[test]
fn keys_compare_by_contents_and_parameters() {
    let a = SeededLweBootstrapKey::new(
        1u64,
        GlweSize(2),
        PolynomialSize(2),
        DecompositionBaseLog(8),
        DecompositionLevelCount(1),
        LweDimension(1),
        seed(),
        CiphertextModulus::<u64>::new_native(),
    );
    let b = a.clone();
    assert_eq!(a, b);
    let c = SeededLweBootstrapKey::new(
        1u64,
        GlweSize(2),
        PolynomialSize(2),
        DecompositionBaseLog(9),
        DecompositionLevelCount(1),
        LweDimension(1),
        seed(),
        CiphertextModulus::<u64>::new_native(),
    );
    assert_ne!(a, c);
}
