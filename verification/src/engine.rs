//! Digest engines: stateful accumulators over the two supported SHA-3
//! variants.  The SHA-3 permutation itself is delegated to the `sha3`
//! crate; each engine tracks, as a ghost sequence, exactly which bytes it
//! has absorbed, and finalization yields the digest of that sequence.

use vstd::prelude::*;
use sha3::Digest;

verus! {

use crate::config::Algorithm;

/// The digest that SHA3-256 assigns to a byte sequence.  The result is a
/// function of the input bytes alone.
pub uninterp spec fn sha3_256_of(input: Seq<u8>) -> Seq<u8>;

/// The digest that SHA3-512 assigns to a byte sequence.  The result is a
/// function of the input bytes alone.
pub uninterp spec fn sha3_512_of(input: Seq<u8>) -> Seq<u8>;

/// The digest bytes the given algorithm assigns to an input byte sequence.
pub open spec fn spec_digest(algo: Algorithm, input: Seq<u8>) -> Seq<u8> {
    match algo {
        Algorithm::Sha3_256 => sha3_256_of(input),
        Algorithm::Sha3_512 => sha3_512_of(input),
    }
}

#[verifier::external_type_specification]
#[verifier::external_body]
pub struct ExSha3_256(sha3::Sha3_256);

#[verifier::external_type_specification]
#[verifier::external_body]
pub struct ExSha3_512(sha3::Sha3_512);

/// Relies on sha3::Sha3_256 via digest::Digest::new: a fresh hasher that
/// has processed no input.
#[verifier::external_body]
fn sha3_256_new_raw() -> sha3::Sha3_256 {
    sha3::Sha3_256::new()
}

/// Relies on sha3::Sha3_512 via digest::Digest::new: a fresh hasher that
/// has processed no input.
#[verifier::external_body]
fn sha3_512_new_raw() -> sha3::Sha3_512 {
    sha3::Sha3_512::new()
}

/// A SHA3-256 accumulator together with the ghost sequence of bytes it has
/// absorbed so far.
pub(crate) struct Sha3_256State {
    inner: sha3::Sha3_256,
    absorbed: Ghost<Seq<u8>>,
}

/// A SHA3-512 accumulator together with the ghost sequence of bytes it has
/// absorbed so far.
pub(crate) struct Sha3_512State {
    inner: sha3::Sha3_512,
    absorbed: Ghost<Seq<u8>>,
}

impl Sha3_256State {
    pub(crate) closed spec fn absorbed(self) -> Seq<u8> {
        self.absorbed@
    }

    /// A fresh SHA3-256 accumulator that has absorbed nothing.
    pub(crate) fn new() -> (s: Self)
        ensures
            s.absorbed() == Seq::<u8>::empty(),
    {
        Sha3_256State { inner: sha3_256_new_raw(), absorbed: Ghost(Seq::empty()) }
    }

    /// Relies on digest::Digest::update: processes `data`, extending the
    /// input absorbed so far by exactly those bytes, in order.
    #[verifier::external_body]
    pub(crate) fn update(&mut self, data: &[u8])
        ensures
            final(self).absorbed() == old(self).absorbed() + data@,
    {
        self.inner.update(data);
    }

    /// Relies on digest::Digest::finalize: the 32-byte SHA3-256 digest of
    /// everything absorbed, determined by the absorbed bytes alone no
    /// matter how they were split across calls to `update`.
    #[verifier::external_body]
    pub(crate) fn finalize(self) -> (r: Vec<u8>)
        ensures
            r@ == sha3_256_of(self.absorbed()),
            r@.len() == 32,
    {
        self.inner.finalize().to_vec()
    }
}

impl Sha3_512State {
    pub(crate) closed spec fn absorbed(self) -> Seq<u8> {
        self.absorbed@
    }

    /// A fresh SHA3-512 accumulator that has absorbed nothing.
    pub(crate) fn new() -> (s: Self)
        ensures
            s.absorbed() == Seq::<u8>::empty(),
    {
        Sha3_512State { inner: sha3_512_new_raw(), absorbed: Ghost(Seq::empty()) }
    }

    /// Relies on digest::Digest::update: processes `data`, extending the
    /// input absorbed so far by exactly those bytes, in order.
    #[verifier::external_body]
    pub(crate) fn update(&mut self, data: &[u8])
        ensures
            final(self).absorbed() == old(self).absorbed() + data@,
    {
        self.inner.update(data);
    }

    /// Relies on digest::Digest::finalize: the 64-byte SHA3-512 digest of
    /// everything absorbed, determined by the absorbed bytes alone no
    /// matter how they were split across calls to `update`.
    #[verifier::external_body]
    pub(crate) fn finalize(self) -> (r: Vec<u8>)
        ensures
            r@ == sha3_512_of(self.absorbed()),
            r@.len() == 64,
    {
        self.inner.finalize().to_vec()
    }
}

enum EngineState {
    S256(Sha3_256State),
    S512(Sha3_512State),
}

/// A digest engine for one of the two supported algorithms, selected once
/// at construction.  It absorbs bytes incrementally and finalizes to the
/// digest of the full absorbed sequence.
pub struct DigestEngine {
    state: EngineState,
}

impl DigestEngine {
    /// The algorithm this engine was constructed for.
    pub closed spec fn algorithm(self) -> Algorithm {
        match self.state {
            EngineState::S256(_) => Algorithm::Sha3_256,
            EngineState::S512(_) => Algorithm::Sha3_512,
        }
    }

    /// The bytes absorbed so far, in order.
    pub closed spec fn absorbed(self) -> Seq<u8> {
        match self.state {
            EngineState::S256(s) => s.absorbed(),
            EngineState::S512(s) => s.absorbed(),
        }
    }

    /// A fresh engine for the given algorithm that has absorbed nothing.
    pub fn new(algo: Algorithm) -> (e: Self)
        ensures
            e.algorithm() == algo,
            e.absorbed() == Seq::<u8>::empty(),
    {
        match algo {
            Algorithm::Sha3_256 => DigestEngine { state: EngineState::S256(Sha3_256State::new()) },
            Algorithm::Sha3_512 => DigestEngine { state: EngineState::S512(Sha3_512State::new()) },
        }
    }

    /// Absorbs `data`: the absorbed sequence is extended by exactly those
    /// bytes, in order; the algorithm is unchanged.
    pub fn update(&mut self, data: &[u8])
        ensures
            final(self).algorithm() == old(self).algorithm(),
            final(self).absorbed() == old(self).absorbed() + data@,
    {
        match &mut self.state {
            EngineState::S256(s) => s.update(data),
            EngineState::S512(s) => s.update(data),
        }
    }

    /// Consumes the engine and produces the digest of the absorbed bytes:
    /// a byte vector of the algorithm's digest length.
    pub fn finalize(self) -> (r: Vec<u8>)
        ensures
            r@ == spec_digest(self.algorithm(), self.absorbed()),
            r@.len() == self.algorithm().digest_len(),
    {
        match self.state {
            EngineState::S256(s) => s.finalize(),
            EngineState::S512(s) => s.finalize(),
        }
    }
}

} // verus!
