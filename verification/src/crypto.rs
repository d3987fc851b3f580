//! The boundary API: three entry points that validate caller-supplied
//! arguments before touching the hash state.  A nullable pointer coming
//! across the boundary is modelled as an `Option` of a borrow: `None`
//! stands for a null pointer, and the unverified layer that handles raw
//! memory translates before calling in here.
use crate::internal_hash_context::{
    digest_of, is_supported_algorithm, spec_output_size, InternalHashContext,
};
use vstd::prelude::*;

verus! {

/// The closed set of outcomes of every boundary call.  The order of the
/// variants is part of the boundary contract and must never change once
/// published.
#[derive(Clone, Copy, Debug, Eq, PartialEq, Structural)]
pub enum CryptoResult {
    Success,
    /// Reserved generic failure; no boundary call currently returns it.
    Failure,
    PointerCannotBeNull,
    BadOrUnsupportedAlgorithm,
    /// An `update` or `finalize` reached a context slot that no
    /// successful `init` has filled.
    UninitializedOrCorruptedContext,
    BadBufferOutputSize,
}

/// The caller-owned context slot.  It starts uninitialized and holds a
/// live hash state from the first successful `crypto_init` on.
pub struct CryptoContext {
    state: Option<InternalHashContext>,
}

impl CryptoContext {
    /// True when the slot holds a live hash state.
    pub closed spec fn is_initialized(&self) -> bool {
        self.state is Some
    }

    /// The identifier of the active algorithm; meaningful only when the
    /// slot is initialized.
    pub closed spec fn alg_id(&self) -> u32 {
        self.state->Some_0.alg_id()
    }

    /// The bytes fed since the last initialization or finalization;
    /// meaningful only when the slot is initialized.
    pub closed spec fn fed(&self) -> Seq<u8> {
        self.state->Some_0.fed()
    }

    /// A fresh, uninitialized context slot.
    pub fn new() -> (ctx: CryptoContext)
        ensures
            !ctx.is_initialized(),
    {
        CryptoContext { state: None }
    }
}

/// Incremental feeding is equivalent to one-shot feeding: from any state
/// of fed bytes, feeding `a` and then `b` leads to the same digest as
/// feeding their concatenation at once.
pub proof fn lemma_incremental_feeding(algorithm_id: u32, s: Seq<u8>, a: Seq<u8>, b: Seq<u8>)
    ensures
        digest_of(algorithm_id, s + a + b) == digest_of(algorithm_id, s + (a + b)),
{
    assert(s + a + b =~= s + (a + b));
}

/// A finalize resets the running state, so the digest after feeding `x`
/// into a just-finalized context is the digest of `x` alone, exactly as a
/// freshly initialized context would produce it.
pub proof fn lemma_finalize_resets(algorithm_id: u32, x: Seq<u8>)
    ensures
        digest_of(algorithm_id, Seq::<u8>::empty() + x) == digest_of(algorithm_id, x),
{
    assert(Seq::<u8>::empty() + x =~= x);
}

/// Initializes a context for the algorithm named by `algorithm_id`,
/// discarding whatever the slot held before.  Total over the whole
/// identifier space: an unregistered identifier is reported, never
/// misread as another algorithm.
#[must_use]
pub fn crypto_init(ctx: Option<&mut CryptoContext>, algorithm_id: u32) -> (r: CryptoResult)
    ensures
        match ctx {
            None => r == CryptoResult::PointerCannotBeNull,
            Some(c) => if is_supported_algorithm(algorithm_id) {
                &&& r == CryptoResult::Success
                &&& final(c).is_initialized()
                &&& final(c).alg_id() == algorithm_id
                &&& final(c).fed() == Seq::<u8>::empty()
            } else {
                &&& r == CryptoResult::BadOrUnsupportedAlgorithm
                &&& *final(c) == *c
            },
        },
{
    match ctx {
        None => CryptoResult::PointerCannotBeNull,
        Some(c) => match InternalHashContext::new(algorithm_id) {
            Some(fresh) => {
                *c = CryptoContext { state: Some(fresh) };
                CryptoResult::Success
            },
            None => CryptoResult::BadOrUnsupportedAlgorithm,
        },
    }
}

/// Feeds `input` to an initialized context.  A null pointer is an error
/// even for an empty input; a zero-length update through valid pointers
/// is a successful no-op.
#[must_use]
pub fn crypto_update(ctx: Option<&mut CryptoContext>, input: Option<&[u8]>) -> (r: CryptoResult)
    ensures
        match ctx {
            None => r == CryptoResult::PointerCannotBeNull,
            Some(c) => match input {
                None => {
                    &&& r == CryptoResult::PointerCannotBeNull
                    &&& *final(c) == *c
                },
                Some(bytes) => if (*c).is_initialized() {
                    &&& r == CryptoResult::Success
                    &&& final(c).is_initialized()
                    &&& final(c).alg_id() == (*c).alg_id()
                    &&& final(c).fed() == (*c).fed() + bytes@
                } else {
                    &&& r == CryptoResult::UninitializedOrCorruptedContext
                    &&& *final(c) == *c
                },
            },
        },
{
    match ctx {
        None => CryptoResult::PointerCannotBeNull,
        Some(c) => match input {
            None => CryptoResult::PointerCannotBeNull,
            Some(bytes) => match &mut c.state {
                None => CryptoResult::UninitializedOrCorruptedContext,
                Some(inner) => {
                    inner.udpate(bytes);
                    CryptoResult::Success
                },
            },
        },
    }
}

/// Writes the digest of everything fed since the last initialization or
/// finalization into `output`, then resets the running state so the slot
/// immediately accepts a fresh update sequence.  The output buffer must
/// have exactly the active algorithm's digest length; a short or long
/// buffer is rejected untouched.
#[must_use]
pub fn crypto_finalize(ctx: Option<&mut CryptoContext>, output: Option<&mut [u8]>) -> (r:
    CryptoResult)
    ensures
        match ctx {
            None => r == CryptoResult::PointerCannotBeNull,
            Some(c) => match output {
                None => {
                    &&& r == CryptoResult::PointerCannotBeNull
                    &&& *final(c) == *c
                },
                Some(out) => if !(*c).is_initialized() {
                    &&& r == CryptoResult::UninitializedOrCorruptedContext
                    &&& *final(c) == *c
                    &&& final(out)@ == out@
                } else if out@.len() != spec_output_size((*c).alg_id()) {
                    &&& r == CryptoResult::BadBufferOutputSize
                    &&& *final(c) == *c
                    &&& final(out)@ == out@
                } else {
                    &&& r == CryptoResult::Success
                    &&& final(out)@ == digest_of((*c).alg_id(), (*c).fed())
                    &&& final(out)@.len() == out@.len()
                    &&& final(c).is_initialized()
                    &&& final(c).alg_id() == (*c).alg_id()
                    &&& final(c).fed() == Seq::<u8>::empty()
                },
            },
        },
{
    match ctx {
        None => CryptoResult::PointerCannotBeNull,
        Some(c) => match output {
            None => CryptoResult::PointerCannotBeNull,
            Some(out) => match &mut c.state {
                None => CryptoResult::UninitializedOrCorruptedContext,
                Some(inner) => {
                    if out.len() != inner.output_size() {
                        CryptoResult::BadBufferOutputSize
                    } else {
                        inner.finalize(out);
                        CryptoResult::Success
                    }
                },
            },
        },
    }
}

} // verus!
