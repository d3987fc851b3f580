//! The tagged union over the per-algorithm streaming states, and the
//! registry that is its only constructor.
use crate::hashers::{
    sha256_digest, sha256_fed, sha3_256_digest, sha3_256_fed, Sha256State, Sha3_256State,
};
use crate::{SHA256_ALG_ID, SHA3_256_ALG_ID};
use vstd::prelude::*;

verus! {

/// True exactly on the registered algorithm identifiers.
pub open spec fn is_supported_algorithm(algorithm_id: u32) -> bool {
    algorithm_id == SHA256_ALG_ID || algorithm_id == SHA3_256_ALG_ID
}

/// The digest of `input` under the algorithm named by `algorithm_id`.
pub open spec fn digest_of(algorithm_id: u32, input: Seq<u8>) -> Seq<u8> {
    if algorithm_id == SHA256_ALG_ID {
        sha256_digest(input)
    } else {
        sha3_256_digest(input)
    }
}

/// The fixed digest length, in bytes, of the algorithm named by
/// `algorithm_id`: 32 for both registered algorithms.
pub open spec fn spec_output_size(algorithm_id: u32) -> nat {
    32
}

/// One live streaming state; exactly one variant is active at a time, and
/// only the registry constructor `new` selects it.
pub enum InternalHashContext {
    Sha256(Sha256State),
    Sha3_256(Sha3_256State),
}

impl InternalHashContext {
    /// The identifier of the active algorithm.
    pub open spec fn alg_id(&self) -> u32 {
        match self {
            InternalHashContext::Sha256(_) => SHA256_ALG_ID,
            InternalHashContext::Sha3_256(_) => SHA3_256_ALG_ID,
        }
    }

    /// The bytes fed since this state was constructed or last finalized.
    pub open spec fn fed(&self) -> Seq<u8> {
        match self {
            InternalHashContext::Sha256(s) => sha256_fed(*s),
            InternalHashContext::Sha3_256(s) => sha3_256_fed(*s),
        }
    }

    /// The algorithm registry: the single place identifiers are bound to
    /// algorithms, total over the whole identifier space.
    pub fn new(algorithm_id: u32) -> (r: Option<Self>)
        ensures
            match r {
                Some(ctx) => is_supported_algorithm(algorithm_id) && ctx.alg_id() == algorithm_id
                    && ctx.fed() == Seq::<u8>::empty(),
                None => !is_supported_algorithm(algorithm_id),
            },
    {
        if algorithm_id == SHA256_ALG_ID {
            Some(InternalHashContext::Sha256(Sha256State::new()))
        } else if algorithm_id == SHA3_256_ALG_ID {
            Some(InternalHashContext::Sha3_256(Sha3_256State::new()))
        } else {
            None
        }
    }

    /// Appends `input` to the active algorithm's running state.
    pub fn udpate(&mut self, input: &[u8])
        ensures
            final(self).alg_id() == old(self).alg_id(),
            final(self).fed() == old(self).fed() + input@,
    {
        match self {
            InternalHashContext::Sha256(s) => s.update(input),
            InternalHashContext::Sha3_256(s) => s.update(input),
        }
    }

    /// Writes the digest of all bytes fed since the last initialization or
    /// finalization into `output`, and resets the running state so the slot
    /// immediately accepts a fresh update sequence.
    pub fn finalize(&mut self, output: &mut [u8])
        requires
            old(output)@.len() == spec_output_size(old(self).alg_id()),
        ensures
            final(self).alg_id() == old(self).alg_id(),
            final(self).fed() == Seq::<u8>::empty(),
            final(output)@ == digest_of(old(self).alg_id(), old(self).fed()),
            final(output)@.len() == old(output)@.len(),
    {
        match self {
            InternalHashContext::Sha256(s) => s.finalize_reset_into(output),
            InternalHashContext::Sha3_256(s) => s.finalize_reset_into(output),
        }
    }

    /// The fixed digest length of the active algorithm, queryable before
    /// `finalize` so buffer sizes can be validated up front.
    pub fn output_size(&self) -> (n: usize)
        ensures
            n == spec_output_size(self.alg_id()),
    {
        match self {
            InternalHashContext::Sha256(_) => 32,
            InternalHashContext::Sha3_256(_) => 32,
        }
    }
}

} // verus!
