//! A pairing-based vector commitment with verified setup, commit, open and
//! verify.
//!
//! `cf13` holds the construction, generic over the group and pairing algebra
//! of `backend`; group elements and scalars travel as their canonical
//! compressed encodings.
use ark_std::rand::rngs::StdRng;
use vstd::prelude::*;

pub mod backend;
pub mod cf13;

verus! {

/// The ways in which an operation of a vector commitment can fail.
#[derive(Debug, Clone, Copy, PartialEq, Eq, Structural)]
pub enum Error {
    /// A committed vector does not have exactly one message per index.
    LengthMismatch,
    /// An index lies outside the index domain of the parameters.
    IndexOutOfRange,
    /// Setup was asked for an empty index domain.
    EmptyIndexDomain,
    /// The randomness source failed to provide usable trapdoor material.
    RandomnessFailure,
}

/// A vector commitment: one short value that binds an ordered sequence of
/// messages, openable at any index with a proof that a verifier checks against
/// the commitment alone.
pub trait VectorCommitment {
    type Parameters;
    type Message;
    type Commitment;
    type AuxData;
    type Proof;

    /// The number of indices that parameters admit.
    spec fn index_domain(parameters: Self::Parameters) -> nat;

    fn generate_parameters(rng: &mut StdRng, q: usize) -> (r: Result<Self::Parameters, Error>)
        ensures
            q == 0 ==> r is Err,
            r matches Ok(p) ==> Self::index_domain(p) == q,
    ;

    fn commit(parameters: &Self::Parameters, vector: &[Self::Message]) -> (r: Result<
        (Self::Commitment, Self::AuxData),
        Error,
    >)
        ensures
            vector@.len() == Self::index_domain(*parameters) <==> r is Ok,
            r matches Err(e) ==> e == Error::LengthMismatch,
    ;

    fn open(parameters: &Self::Parameters, aux: &Self::AuxData, index: usize) -> (r: Result<
        Self::Proof,
        Error,
    >)
        ensures
            index >= Self::index_domain(*parameters) ==> r matches Err(Error::IndexOutOfRange),
    ;

    fn verify(
        parameters: &Self::Parameters,
        commitment: &Self::Commitment,
        msg: &Self::Message,
        index: usize,
        proof: &Self::Proof,
    ) -> (r: Result<bool, Error>)
        ensures
            index >= Self::index_domain(*parameters) <==> r is Err,
            r matches Err(e) ==> e == Error::IndexOutOfRange,
    ;
}

} // verus!
