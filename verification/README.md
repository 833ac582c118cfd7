# seeded_bootstrap_key

Seeded LWE bootstrapping keys, with their behaviour stated in Verus contracts and
proved.

A seeded bootstrapping key is a list of seeded GGSW ciphertexts, one per element of
the input LWE secret key. For every GLWE row of every level it stores only the body
polynomial; the masks are regenerated from the key's compression seed. Decompression
rebuilds a full LWE bootstrapping key with the same parameters.

Layout:

- `src/parameters.rs`: the shape parameters, the compression seed and the ciphertext
  modulus.
- `src/numeric.rs`, `src/container.rs`: element types and the storage an entity is
  built on (an owned vector or a borrowed slice).
- `src/seeded_ggsw_ciphertext_list.rs`: the list of seeded GGSW ciphertexts the key
  is made of, with its mathematical view.
- `src/seeded_lwe_bootstrap_key.rs`: the key itself.
- `src/decompression.rs`: the row-by-row rebuilding of full GLWE rows, with the laws
  that decompression reads back each body and works one run of rows at a time.
- `src/lwe_bootstrap_key.rs`: the decompressed key.
- `src/conformance.rs`: parameter sets a key can be checked against.
- `app/`: serde support and decompression spread over threads.

The masks are an argument of decompression: they are the run of values that the
pseudo random generator seeded with the compression seed yields, uniform below the
ciphertext modulus. Under a power of two modulus smaller than the native one,
decompression multiplies each of them by `2^BITS / modulus` to bring it onto the
native torus.
