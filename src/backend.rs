//! The group and pairing algebra that the commitment scheme is built on.
//!
//! Every group element and every scalar is handled as its canonical compressed
//! encoding, so the algebra is a set of maps between byte strings. The
//! construction is generic over `PairingBackend`; `Bn254` and `Bls12_381`
//! are its instances.
use ark_bls12_381::{
    Fr as Fr381, G1Affine as G1Affine381, G1Projective as G1Projective381,
    G2Affine as G2Affine381, G2Projective as G2Projective381,
};
use ark_bn254::{Fr, G1Affine, G1Projective, G2Affine, G2Projective};
use ark_ec::pairing::Pairing;
use ark_ff::field_hashers::{DefaultFieldHasher, HashToField};
use ark_serialize::{CanonicalDeserialize, CanonicalSerialize};
use ark_std::rand::rngs::StdRng;
use ark_std::{UniformRand, Zero};
use sha2::Sha256;
use vstd::prelude::*;

verus! {

/// The seedable random number generator that setup draws from.
#[verifier::external_type_specification]
#[verifier::external_body]
pub struct ExStdRng(StdRng);

/// A pairing-friendly curve: three groups, a scalar field, a bilinear map,
/// and a hash from byte strings to scalars.
///
/// Group elements of the first and second group and scalars are byte strings
/// in the curve's canonical compressed encoding; `g1_ok`, `g2_ok` and
/// `scalar_ok` hold of exactly the encodings that the operations produce.
pub trait PairingBackend {
    spec fn g1_ok(p: Seq<u8>) -> bool;

    spec fn g2_ok(p: Seq<u8>) -> bool;

    spec fn scalar_ok(s: Seq<u8>) -> bool;

    /// The encoding of the identity of the first group.
    spec fn g1_zero() -> Seq<u8>;

    /// The encoding of the identity of the second group.
    spec fn g2_zero() -> Seq<u8>;

    spec fn g1_add(a: Seq<u8>, b: Seq<u8>) -> Seq<u8>;

    spec fn g1_sub(a: Seq<u8>, b: Seq<u8>) -> Seq<u8>;

    spec fn g1_mul(p: Seq<u8>, s: Seq<u8>) -> Seq<u8>;

    spec fn g2_mul(p: Seq<u8>, s: Seq<u8>) -> Seq<u8>;

    /// The scalar that the domain-separated hash gives to a message.
    spec fn hash(domain: Seq<u8>, msg: Seq<u8>) -> Seq<u8>;

    /// The encoding of the pairing of a first-group and a second-group element.
    spec fn pairing(a: Seq<u8>, b: Seq<u8>) -> Seq<u8>;

    fn identity_g1() -> (r: Vec<u8>)
        ensures
            r@ == Self::g1_zero(),
            Self::g1_ok(r@),
    ;

    fn identity_g2() -> (r: Vec<u8>)
        ensures
            r@ == Self::g2_zero(),
            Self::g2_ok(r@),
    ;

    fn add_g1(a: &Vec<u8>, b: &Vec<u8>) -> (r: Vec<u8>)
        requires
            Self::g1_ok(a@),
            Self::g1_ok(b@),
        ensures
            r@ == Self::g1_add(a@, b@),
            Self::g1_ok(r@),
    ;

    fn sub_g1(a: &Vec<u8>, b: &Vec<u8>) -> (r: Vec<u8>)
        requires
            Self::g1_ok(a@),
            Self::g1_ok(b@),
        ensures
            r@ == Self::g1_sub(a@, b@),
            Self::g1_ok(r@),
    ;

    fn mul_g1(p: &Vec<u8>, s: &Vec<u8>) -> (r: Vec<u8>)
        requires
            Self::g1_ok(p@),
            Self::scalar_ok(s@),
        ensures
            r@ == Self::g1_mul(p@, s@),
            Self::g1_ok(r@),
    ;

    fn mul_g2(p: &Vec<u8>, s: &Vec<u8>) -> (r: Vec<u8>)
        requires
            Self::g2_ok(p@),
            Self::scalar_ok(s@),
        ensures
            r@ == Self::g2_mul(p@, s@),
            Self::g2_ok(r@),
    ;

    fn hash_to_scalar(domain: &Vec<u8>, msg: &[u8]) -> (r: Vec<u8>)
        ensures
            r@ == Self::hash(domain@, msg@),
            Self::scalar_ok(r@),
    ;

    fn pair(a: &Vec<u8>, b: &Vec<u8>) -> (r: Vec<u8>)
        requires
            Self::g1_ok(a@),
            Self::g2_ok(b@),
        ensures
            r@ == Self::pairing(a@, b@),
    ;

    fn random_g1(rng: &mut StdRng) -> (r: Vec<u8>)
        ensures
            Self::g1_ok(r@),
    ;

    fn random_g2(rng: &mut StdRng) -> (r: Vec<u8>)
        ensures
            Self::g2_ok(r@),
    ;

    fn random_scalar(rng: &mut StdRng) -> (r: Vec<u8>)
        ensures
            Self::scalar_ok(r@),
    ;
}

/// The BN254 (alt_bn128) curve with SHA-256 based hashing to its scalar field.
pub struct Bn254;

/// The compressed BN254 first-group encoding that the operations produce.
pub uninterp spec fn bn254_g1_ok(p: Seq<u8>) -> bool;

/// The compressed BN254 second-group encoding that the operations produce.
pub uninterp spec fn bn254_g2_ok(p: Seq<u8>) -> bool;

/// The canonical BN254 scalar encoding that the operations produce.
pub uninterp spec fn bn254_scalar_ok(s: Seq<u8>) -> bool;

/// Sum of two BN254 first-group elements.
pub uninterp spec fn bn254_g1_add(a: Seq<u8>, b: Seq<u8>) -> Seq<u8>;

/// Difference of two BN254 first-group elements.
pub uninterp spec fn bn254_g1_sub(a: Seq<u8>, b: Seq<u8>) -> Seq<u8>;

/// A BN254 first-group element times a scalar.
pub uninterp spec fn bn254_g1_mul(p: Seq<u8>, s: Seq<u8>) -> Seq<u8>;

/// A BN254 second-group element times a scalar.
pub uninterp spec fn bn254_g2_mul(p: Seq<u8>, s: Seq<u8>) -> Seq<u8>;

/// The BN254 scalar that SHA-256 hash-to-field gives under a domain tag.
pub uninterp spec fn bn254_hash(domain: Seq<u8>, msg: Seq<u8>) -> Seq<u8>;

/// The compressed encoding of the BN254 pairing of two elements.
pub uninterp spec fn bn254_pairing(a: Seq<u8>, b: Seq<u8>) -> Seq<u8>;

/// The compressed BN254 identity: the base-field zero in 32 little-endian
/// bytes, with the point-at-infinity flag (bit 6) set in the last byte.
pub open spec fn bn254_g1_identity() -> Seq<u8> {
    Seq::new(32, |i: int| if i == 31 { 0x40u8 } else { 0u8 })
}

/// Relies on `G1Projective::zero` and ark-serialize's compressed encoding
/// of the point at infinity.
#[verifier::external_body]
fn bn254_identity_g1() -> (r: Vec<u8>)
    ensures
        r@ == bn254_g1_identity(),
        bn254_g1_ok(r@),
{
    let mut out = Vec::new();
    G1Projective::zero().serialize_compressed(&mut out).unwrap();
    out
}

/// Relies on projective addition in ark-ec's short Weierstrass model.
#[verifier::external_body]
fn bn254_add_g1(a: &Vec<u8>, b: &Vec<u8>) -> (r: Vec<u8>)
    requires
        bn254_g1_ok(a@),
        bn254_g1_ok(b@),
    ensures
        r@ == bn254_g1_add(a@, b@),
        bn254_g1_ok(r@),
{
    let a = G1Affine::deserialize_compressed_unchecked(&a[..]).unwrap();
    let b = G1Affine::deserialize_compressed_unchecked(&b[..]).unwrap();
    let mut out = Vec::new();
    (G1Projective::from(a) + b).serialize_compressed(&mut out).unwrap();
    out
}

/// Relies on projective subtraction in ark-ec's short Weierstrass model.
#[verifier::external_body]
fn bn254_sub_g1(a: &Vec<u8>, b: &Vec<u8>) -> (r: Vec<u8>)
    requires
        bn254_g1_ok(a@),
        bn254_g1_ok(b@),
    ensures
        r@ == bn254_g1_sub(a@, b@),
        bn254_g1_ok(r@),
{
    let a = G1Affine::deserialize_compressed_unchecked(&a[..]).unwrap();
    let b = G1Affine::deserialize_compressed_unchecked(&b[..]).unwrap();
    let mut out = Vec::new();
    (G1Projective::from(a) - b).serialize_compressed(&mut out).unwrap();
    out
}

/// Relies on ark-ec's scalar multiplication of a first-group point.
#[verifier::external_body]
fn bn254_mul_g1(p: &Vec<u8>, s: &Vec<u8>) -> (r: Vec<u8>)
    requires
        bn254_g1_ok(p@),
        bn254_scalar_ok(s@),
    ensures
        r@ == bn254_g1_mul(p@, s@),
        bn254_g1_ok(r@),
{
    let p = G1Affine::deserialize_compressed_unchecked(&p[..]).unwrap();
    let s = Fr::deserialize_compressed(&s[..]).unwrap();
    let mut out = Vec::new();
    (p * s).serialize_compressed(&mut out).unwrap();
    out
}

/// Relies on ark-ec's scalar multiplication of a second-group point.
#[verifier::external_body]
fn bn254_mul_g2(p: &Vec<u8>, s: &Vec<u8>) -> (r: Vec<u8>)
    requires
        bn254_g2_ok(p@),
        bn254_scalar_ok(s@),
    ensures
        r@ == bn254_g2_mul(p@, s@),
        bn254_g2_ok(r@),
{
    let p = G2Affine::deserialize_compressed_unchecked(&p[..]).unwrap();
    let s = Fr::deserialize_compressed(&s[..]).unwrap();
    let mut out = Vec::new();
    (p * s).serialize_compressed(&mut out).unwrap();
    out
}

/// Relies on ark-ff's `DefaultFieldHasher<Sha256>::hash_to_field`, which
/// is a function of the domain tag and the message.
#[verifier::external_body]
fn bn254_hash_to_scalar(domain: &Vec<u8>, msg: &[u8]) -> (r: Vec<u8>)
    ensures
        r@ == bn254_hash(domain@, msg@),
        bn254_scalar_ok(r@),
{
    let hasher = <DefaultFieldHasher<Sha256> as HashToField<Fr>>::new(domain);
    let h: Vec<Fr> = hasher.hash_to_field(msg, 1);
    let mut out = Vec::new();
    h[0].serialize_compressed(&mut out).unwrap();
    out
}

/// Relies on `ark_bn254::Bn254::pairing`, encoded compressed.
#[verifier::external_body]
fn bn254_pair(a: &Vec<u8>, b: &Vec<u8>) -> (r: Vec<u8>)
    requires
        bn254_g1_ok(a@),
        bn254_g2_ok(b@),
    ensures
        r@ == bn254_pairing(a@, b@),
{
    let a = G1Affine::deserialize_compressed_unchecked(&a[..]).unwrap();
    let b = G2Affine::deserialize_compressed_unchecked(&b[..]).unwrap();
    let mut out = Vec::new();
    ark_bn254::Bn254::pairing(a, b).serialize_compressed(&mut out).unwrap();
    out
}

/// Relies on `UniformRand` for `G1Projective`.
#[verifier::external_body]
fn bn254_random_g1(rng: &mut StdRng) -> (r: Vec<u8>)
    ensures
        bn254_g1_ok(r@),
{
    let mut out = Vec::new();
    G1Projective::rand(rng).serialize_compressed(&mut out).unwrap();
    out
}

/// Relies on `UniformRand` for `G2Projective`.
#[verifier::external_body]
fn bn254_random_g2(rng: &mut StdRng) -> (r: Vec<u8>)
    ensures
        bn254_g2_ok(r@),
{
    let mut out = Vec::new();
    G2Projective::rand(rng).serialize_compressed(&mut out).unwrap();
    out
}

/// Relies on `UniformRand` for the scalar field `Fr`.
#[verifier::external_body]
fn bn254_random_scalar(rng: &mut StdRng) -> (r: Vec<u8>)
    ensures
        bn254_scalar_ok(r@),
{
    let mut out = Vec::new();
    Fr::rand(rng).serialize_compressed(&mut out).unwrap();
    out
}

/// The compressed BN254 second-group identity: the zero of the quadratic
/// extension field as two 32-byte little-endian halves, with the
/// point-at-infinity flag (bit 6) set in the last byte.
pub open spec fn bn254_g2_identity() -> Seq<u8> {
    Seq::new(64, |i: int| if i == 63 { 0x40u8 } else { 0u8 })
}

/// Relies on BN254 `G2Projective::zero` and ark-serialize's compressed encoding
/// of the point at infinity.
#[verifier::external_body]
fn bn254_identity_g2() -> (r: Vec<u8>)
    ensures
        r@ == bn254_g2_identity(),
        bn254_g2_ok(r@),
{
    let mut out = Vec::new();
    G2Projective::zero().serialize_compressed(&mut out).unwrap();
    out
}

impl PairingBackend for Bn254 {
    open spec fn g1_ok(p: Seq<u8>) -> bool {
        bn254_g1_ok(p)
    }

    open spec fn g2_ok(p: Seq<u8>) -> bool {
        bn254_g2_ok(p)
    }

    open spec fn scalar_ok(s: Seq<u8>) -> bool {
        bn254_scalar_ok(s)
    }

    open spec fn g1_zero() -> Seq<u8> {
        bn254_g1_identity()
    }

    open spec fn g2_zero() -> Seq<u8> {
        bn254_g2_identity()
    }

    open spec fn g1_add(a: Seq<u8>, b: Seq<u8>) -> Seq<u8> {
        bn254_g1_add(a, b)
    }

    open spec fn g1_sub(a: Seq<u8>, b: Seq<u8>) -> Seq<u8> {
        bn254_g1_sub(a, b)
    }

    open spec fn g1_mul(p: Seq<u8>, s: Seq<u8>) -> Seq<u8> {
        bn254_g1_mul(p, s)
    }

    open spec fn g2_mul(p: Seq<u8>, s: Seq<u8>) -> Seq<u8> {
        bn254_g2_mul(p, s)
    }

    open spec fn hash(domain: Seq<u8>, msg: Seq<u8>) -> Seq<u8> {
        bn254_hash(domain, msg)
    }

    open spec fn pairing(a: Seq<u8>, b: Seq<u8>) -> Seq<u8> {
        bn254_pairing(a, b)
    }

    fn identity_g1() -> (r: Vec<u8>) {
        bn254_identity_g1()
    }

    fn identity_g2() -> (r: Vec<u8>) {
        bn254_identity_g2()
    }

    fn add_g1(a: &Vec<u8>, b: &Vec<u8>) -> (r: Vec<u8>) {
        bn254_add_g1(a, b)
    }

    fn sub_g1(a: &Vec<u8>, b: &Vec<u8>) -> (r: Vec<u8>) {
        bn254_sub_g1(a, b)
    }

    fn mul_g1(p: &Vec<u8>, s: &Vec<u8>) -> (r: Vec<u8>) {
        bn254_mul_g1(p, s)
    }

    fn mul_g2(p: &Vec<u8>, s: &Vec<u8>) -> (r: Vec<u8>) {
        bn254_mul_g2(p, s)
    }

    fn hash_to_scalar(domain: &Vec<u8>, msg: &[u8]) -> (r: Vec<u8>) {
        bn254_hash_to_scalar(domain, msg)
    }

    fn pair(a: &Vec<u8>, b: &Vec<u8>) -> (r: Vec<u8>) {
        bn254_pair(a, b)
    }

    fn random_g1(rng: &mut StdRng) -> (r: Vec<u8>) {
        bn254_random_g1(rng)
    }

    fn random_g2(rng: &mut StdRng) -> (r: Vec<u8>) {
        bn254_random_g2(rng)
    }

    fn random_scalar(rng: &mut StdRng) -> (r: Vec<u8>) {
        bn254_random_scalar(rng)
    }
}

/// The BLS12-381 curve with SHA-256 based hashing to its scalar field.
#[allow(non_camel_case_types)]
pub struct Bls12_381;

/// The compressed BLS12-381 first-group encoding that the operations produce.
pub uninterp spec fn bls12_381_g1_ok(p: Seq<u8>) -> bool;

/// The compressed BLS12-381 second-group encoding that the operations produce.
pub uninterp spec fn bls12_381_g2_ok(p: Seq<u8>) -> bool;

/// The canonical BLS12-381 scalar encoding that the operations produce.
pub uninterp spec fn bls12_381_scalar_ok(s: Seq<u8>) -> bool;

/// Sum of two BLS12-381 first-group elements.
pub uninterp spec fn bls12_381_g1_add(a: Seq<u8>, b: Seq<u8>) -> Seq<u8>;

/// Difference of two BLS12-381 first-group elements.
pub uninterp spec fn bls12_381_g1_sub(a: Seq<u8>, b: Seq<u8>) -> Seq<u8>;

/// A BLS12-381 first-group element times a scalar.
pub uninterp spec fn bls12_381_g1_mul(p: Seq<u8>, s: Seq<u8>) -> Seq<u8>;

/// A BLS12-381 second-group element times a scalar.
pub uninterp spec fn bls12_381_g2_mul(p: Seq<u8>, s: Seq<u8>) -> Seq<u8>;

/// The BLS12-381 scalar that SHA-256 hash-to-field gives under a domain tag.
pub uninterp spec fn bls12_381_hash(domain: Seq<u8>, msg: Seq<u8>) -> Seq<u8>;

/// The compressed encoding of the BLS12-381 pairing of two elements.
pub uninterp spec fn bls12_381_pairing(a: Seq<u8>, b: Seq<u8>) -> Seq<u8>;

/// The compressed BLS12-381 identity: the base-field zero in 48 big-endian
/// bytes, with the compression flag (bit 7) and the point-at-infinity flag
/// (bit 6) set in the first byte.
pub open spec fn bls12_381_g1_identity() -> Seq<u8> {
    Seq::new(48, |i: int| if i == 0 { 0xc0u8 } else { 0u8 })
}

/// Relies on BLS12-381 `G1Projective::zero` and ark-bls12-381's compressed encoding
/// of the point at infinity.
#[verifier::external_body]
fn bls12_381_identity_g1() -> (r: Vec<u8>)
    ensures
        r@ == bls12_381_g1_identity(),
        bls12_381_g1_ok(r@),
{
    let mut out = Vec::new();
    G1Projective381::zero().serialize_compressed(&mut out).unwrap();
    out
}

/// Relies on projective addition in ark-ec's short Weierstrass model.
#[verifier::external_body]
fn bls12_381_add_g1(a: &Vec<u8>, b: &Vec<u8>) -> (r: Vec<u8>)
    requires
        bls12_381_g1_ok(a@),
        bls12_381_g1_ok(b@),
    ensures
        r@ == bls12_381_g1_add(a@, b@),
        bls12_381_g1_ok(r@),
{
    let a = G1Affine381::deserialize_compressed_unchecked(&a[..]).unwrap();
    let b = G1Affine381::deserialize_compressed_unchecked(&b[..]).unwrap();
    let mut out = Vec::new();
    (G1Projective381::from(a) + b).serialize_compressed(&mut out).unwrap();
    out
}

/// Relies on projective subtraction in ark-ec's short Weierstrass model.
#[verifier::external_body]
fn bls12_381_sub_g1(a: &Vec<u8>, b: &Vec<u8>) -> (r: Vec<u8>)
    requires
        bls12_381_g1_ok(a@),
        bls12_381_g1_ok(b@),
    ensures
        r@ == bls12_381_g1_sub(a@, b@),
        bls12_381_g1_ok(r@),
{
    let a = G1Affine381::deserialize_compressed_unchecked(&a[..]).unwrap();
    let b = G1Affine381::deserialize_compressed_unchecked(&b[..]).unwrap();
    let mut out = Vec::new();
    (G1Projective381::from(a) - b).serialize_compressed(&mut out).unwrap();
    out
}

/// Relies on ark-ec's scalar multiplication of a first-group point.
#[verifier::external_body]
fn bls12_381_mul_g1(p: &Vec<u8>, s: &Vec<u8>) -> (r: Vec<u8>)
    requires
        bls12_381_g1_ok(p@),
        bls12_381_scalar_ok(s@),
    ensures
        r@ == bls12_381_g1_mul(p@, s@),
        bls12_381_g1_ok(r@),
{
    let p = G1Affine381::deserialize_compressed_unchecked(&p[..]).unwrap();
    let s = Fr381::deserialize_compressed(&s[..]).unwrap();
    let mut out = Vec::new();
    (p * s).serialize_compressed(&mut out).unwrap();
    out
}

/// Relies on ark-ec's scalar multiplication of a second-group point.
#[verifier::external_body]
fn bls12_381_mul_g2(p: &Vec<u8>, s: &Vec<u8>) -> (r: Vec<u8>)
    requires
        bls12_381_g2_ok(p@),
        bls12_381_scalar_ok(s@),
    ensures
        r@ == bls12_381_g2_mul(p@, s@),
        bls12_381_g2_ok(r@),
{
    let p = G2Affine381::deserialize_compressed_unchecked(&p[..]).unwrap();
    let s = Fr381::deserialize_compressed(&s[..]).unwrap();
    let mut out = Vec::new();
    (p * s).serialize_compressed(&mut out).unwrap();
    out
}

/// Relies on ark-ff's `DefaultFieldHasher<Sha256>::hash_to_field`, which
/// is a function of the domain tag and the message.
#[verifier::external_body]
fn bls12_381_hash_to_scalar(domain: &Vec<u8>, msg: &[u8]) -> (r: Vec<u8>)
    ensures
        r@ == bls12_381_hash(domain@, msg@),
        bls12_381_scalar_ok(r@),
{
    let hasher = <DefaultFieldHasher<Sha256> as HashToField<Fr381>>::new(domain);
    let h: Vec<Fr381> = hasher.hash_to_field(msg, 1);
    let mut out = Vec::new();
    h[0].serialize_compressed(&mut out).unwrap();
    out
}

/// Relies on `ark_bls12_381::Bls12_381::pairing`, encoded compressed.
#[verifier::external_body]
fn bls12_381_pair(a: &Vec<u8>, b: &Vec<u8>) -> (r: Vec<u8>)
    requires
        bls12_381_g1_ok(a@),
        bls12_381_g2_ok(b@),
    ensures
        r@ == bls12_381_pairing(a@, b@),
{
    let a = G1Affine381::deserialize_compressed_unchecked(&a[..]).unwrap();
    let b = G2Affine381::deserialize_compressed_unchecked(&b[..]).unwrap();
    let mut out = Vec::new();
    ark_bls12_381::Bls12_381::pairing(a, b).serialize_compressed(&mut out).unwrap();
    out
}

/// Relies on `UniformRand` for BLS12-381 `G1Projective`.
#[verifier::external_body]
fn bls12_381_random_g1(rng: &mut StdRng) -> (r: Vec<u8>)
    ensures
        bls12_381_g1_ok(r@),
{
    let mut out = Vec::new();
    G1Projective381::rand(rng).serialize_compressed(&mut out).unwrap();
    out
}

/// Relies on `UniformRand` for BLS12-381 `G2Projective`.
#[verifier::external_body]
fn bls12_381_random_g2(rng: &mut StdRng) -> (r: Vec<u8>)
    ensures
        bls12_381_g2_ok(r@),
{
    let mut out = Vec::new();
    G2Projective381::rand(rng).serialize_compressed(&mut out).unwrap();
    out
}

/// Relies on `UniformRand` for the scalar field `ark_bls12_381::Fr`.
#[verifier::external_body]
fn bls12_381_random_scalar(rng: &mut StdRng) -> (r: Vec<u8>)
    ensures
        bls12_381_scalar_ok(r@),
{
    let mut out = Vec::new();
    Fr381::rand(rng).serialize_compressed(&mut out).unwrap();
    out
}

/// The compressed BLS12-381 second-group identity: the zero of the quadratic
/// extension field in 96 big-endian bytes, with the compression flag (bit 7)
/// and the point-at-infinity flag (bit 6) set in the first byte.
pub open spec fn bls12_381_g2_identity() -> Seq<u8> {
    Seq::new(96, |i: int| if i == 0 { 0xc0u8 } else { 0u8 })
}

/// Relies on BLS12-381 `G2Projective::zero` and ark-bls12-381's compressed encoding
/// of the point at infinity.
#[verifier::external_body]
fn bls12_381_identity_g2() -> (r: Vec<u8>)
    ensures
        r@ == bls12_381_g2_identity(),
        bls12_381_g2_ok(r@),
{
    let mut out = Vec::new();
    G2Projective381::zero().serialize_compressed(&mut out).unwrap();
    out
}

impl PairingBackend for Bls12_381 {
    open spec fn g1_ok(p: Seq<u8>) -> bool {
        bls12_381_g1_ok(p)
    }

    open spec fn g2_ok(p: Seq<u8>) -> bool {
        bls12_381_g2_ok(p)
    }

    open spec fn scalar_ok(s: Seq<u8>) -> bool {
        bls12_381_scalar_ok(s)
    }

    open spec fn g1_zero() -> Seq<u8> {
        bls12_381_g1_identity()
    }

    open spec fn g2_zero() -> Seq<u8> {
        bls12_381_g2_identity()
    }

    open spec fn g1_add(a: Seq<u8>, b: Seq<u8>) -> Seq<u8> {
        bls12_381_g1_add(a, b)
    }

    open spec fn g1_sub(a: Seq<u8>, b: Seq<u8>) -> Seq<u8> {
        bls12_381_g1_sub(a, b)
    }

    open spec fn g1_mul(p: Seq<u8>, s: Seq<u8>) -> Seq<u8> {
        bls12_381_g1_mul(p, s)
    }

    open spec fn g2_mul(p: Seq<u8>, s: Seq<u8>) -> Seq<u8> {
        bls12_381_g2_mul(p, s)
    }

    open spec fn hash(domain: Seq<u8>, msg: Seq<u8>) -> Seq<u8> {
        bls12_381_hash(domain, msg)
    }

    open spec fn pairing(a: Seq<u8>, b: Seq<u8>) -> Seq<u8> {
        bls12_381_pairing(a, b)
    }

    fn identity_g1() -> (r: Vec<u8>) {
        bls12_381_identity_g1()
    }

    fn identity_g2() -> (r: Vec<u8>) {
        bls12_381_identity_g2()
    }

    fn add_g1(a: &Vec<u8>, b: &Vec<u8>) -> (r: Vec<u8>) {
        bls12_381_add_g1(a, b)
    }

    fn sub_g1(a: &Vec<u8>, b: &Vec<u8>) -> (r: Vec<u8>) {
        bls12_381_sub_g1(a, b)
    }

    fn mul_g1(p: &Vec<u8>, s: &Vec<u8>) -> (r: Vec<u8>) {
        bls12_381_mul_g1(p, s)
    }

    fn mul_g2(p: &Vec<u8>, s: &Vec<u8>) -> (r: Vec<u8>) {
        bls12_381_mul_g2(p, s)
    }

    fn hash_to_scalar(domain: &Vec<u8>, msg: &[u8]) -> (r: Vec<u8>) {
        bls12_381_hash_to_scalar(domain, msg)
    }

    fn pair(a: &Vec<u8>, b: &Vec<u8>) -> (r: Vec<u8>) {
        bls12_381_pair(a, b)
    }

    fn random_g1(rng: &mut StdRng) -> (r: Vec<u8>) {
        bls12_381_random_g1(rng)
    }

    fn random_g2(rng: &mut StdRng) -> (r: Vec<u8>) {
        bls12_381_random_g2(rng)
    }

    fn random_scalar(rng: &mut StdRng) -> (r: Vec<u8>) {
        bls12_381_random_scalar(rng)
    }
}

} // verus!
