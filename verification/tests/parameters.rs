use seeded_bootstrap_key::numeric::UnsignedInteger;
use seeded_bootstrap_key::parameters::CiphertextModulusLog;
use seeded_bootstrap_key::parameters::{
    CiphertextModulus, GlweDimension, GlweSize, LweDimension, PolynomialSize,
};
use seeded_bootstrap_key::seeded_ggsw_ciphertext_list::{
    seeded_ggsw_ciphertext_size, seeded_ggsw_level_matrix_size,
};
use seeded_bootstrap_key::lwe_bootstrap_key::ggsw_ciphertext_size;
use seeded_bootstrap_key::parameters::DecompositionLevelCount;

#[test]
fn glwe_size_and_dimension() {
    assert_eq!(GlweSize(3).to_glwe_dimension(), GlweDimension(2));
    assert_eq!(GlweSize(1).to_glwe_dimension(), GlweDimension(0));
    assert_eq!(
        GlweDimension(2).to_equivalent_lwe_dimension(PolynomialSize(512)),
        LweDimension(1024)
    );
}

#[test]
fn ggsw_sizes() {
    assert_eq!(seeded_ggsw_level_matrix_size(GlweSize(3), PolynomialSize(5)), 15);
    assert_eq!(
        seeded_ggsw_ciphertext_size(GlweSize(3), PolynomialSize(5), DecompositionLevelCount(2)),
        30
    );
    assert_eq!(
        ggsw_ciphertext_size(GlweSize(3), PolynomialSize(5), DecompositionLevelCount(2)),
        90
    );
}

#[test]
fn native_modulus() {
    let m = CiphertextModulus::<u64>::new_native();
    assert!(m.is_native_modulus());
    assert!(m.is_power_of_two());
    assert!(m.is_compatible_with_native_modulus());
    assert_eq!(m.get_custom_modulus(), 0);
    assert_eq!(CiphertextModulus::<u64>::try_new(0).unwrap(), m);
    assert!(CiphertextModulus::<u64>::try_new(1u128 << 64).unwrap().is_native_modulus());
    assert!(CiphertextModulus::<u8>::try_new(256).unwrap().is_native_modulus());
}

#[test]
fn modulus_too_big_is_refused() {
    assert!(CiphertextModulus::<u64>::try_new((1u128 << 64) + 1).is_err());
    assert!(CiphertextModulus::<u8>::try_new(257).is_err());
    assert!(CiphertextModulus::<u128>::try_new(u128::MAX).is_ok());
}

#[test]
fn custom_moduli() {
    let pow = CiphertextModulus::<u64>::try_new(1 << 32).unwrap();
    assert!(!pow.is_native_modulus());
    assert!(pow.is_power_of_two());
    assert!(pow.is_compatible_with_native_modulus());
    assert_eq!(pow.get_custom_modulus(), 1 << 32);

    let odd = CiphertextModulus::<u64>::try_new((1 << 32) - 5).unwrap();
    assert!(!odd.is_power_of_two());
    assert!(!odd.is_compatible_with_native_modulus());
    assert_ne!(odd, pow);

    let one = CiphertextModulus::<u32>::try_new(1).unwrap();
    assert!(one.is_power_of_two());

    let big = CiphertextModulus::<u128>::try_new(1u128 << 127).unwrap();
    assert!(big.is_power_of_two());
    assert!(!big.is_native_modulus());
    let max = CiphertextModulus::<u128>::try_new(u128::MAX).unwrap();
    assert!(!max.is_power_of_two());
}

#[test]
fn modulus_log() {
    assert_eq!(CiphertextModulus::<u64>::new_native().into_modulus_log(), CiphertextModulusLog(64));
    assert_eq!(CiphertextModulus::<u8>::new_native().into_modulus_log(), CiphertextModulusLog(8));
    assert_eq!(
        CiphertextModulus::<u64>::try_new(1 << 48).unwrap().into_modulus_log(),
        CiphertextModulusLog(48)
    );
    assert_eq!(CiphertextModulus::<u32>::try_new(1).unwrap().into_modulus_log(), CiphertextModulusLog(0));
    assert_eq!(
        CiphertextModulus::<u128>::try_new(1 << 127).unwrap().into_modulus_log(),
        CiphertextModulusLog(127)
    );
}

#[test]
fn scaling_by_powers_of_two_wraps() {
    assert_eq!(3u8.scale_by_pow2(2), 12);
    assert_eq!(0x81u8.scale_by_pow2(1), 0x02);
    assert_eq!(0xffu8.scale_by_pow2(8), 0);
    assert_eq!(5u16.scale_by_pow2(0), 5);
    assert_eq!(0x8001u16.scale_by_pow2(15), 0x8000);
    assert_eq!(u32::MAX.scale_by_pow2(4), 0xffff_fff0);
    assert_eq!(3u64.scale_by_pow2(63), 1 << 63);
    assert_eq!(3u64.scale_by_pow2(64), 0);
    assert_eq!(3u128.scale_by_pow2(127), 1 << 127);
    assert_eq!(u128::MAX.scale_by_pow2(128), 0);
    assert_eq!(<u64 as UnsignedInteger>::bits(), 64);
}
