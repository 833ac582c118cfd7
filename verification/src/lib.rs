//! Seeded LWE bootstrapping keys: a compressed form of a bootstrapping key in which
//! only the bodies of the GLWE rows are stored and the masks are regenerated from a
//! compression seed.
pub mod numeric;
pub mod container;
pub mod parameters;
pub mod conformance;
pub mod decompression;
pub mod lwe_bootstrap_key;
pub mod seeded_ggsw_ciphertext_list;
pub mod seeded_lwe_bootstrap_key;
