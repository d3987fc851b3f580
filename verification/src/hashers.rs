//! Trusted wrappers around the outside streaming hash implementations.
//!
//! Each wrapper struct holds one outside hasher and is tracked, at the
//! specification level, by the sequence of bytes fed to it since it was
//! created or last finalized.  The digest a hasher produces is a pure
//! function of those bytes alone; its value is named, never written out.
use vstd::prelude::*;

verus! {

/// The SHA-256 digest of a byte sequence.  The value is computed only by
/// the outside hasher; nothing here states what it is.
pub uninterp spec fn sha256_digest(input: Seq<u8>) -> Seq<u8>;

/// The SHA3-256 digest of a byte sequence.
pub uninterp spec fn sha3_256_digest(input: Seq<u8>) -> Seq<u8>;

/// The bytes fed to a SHA-256 hasher since it was created or last finalized.
pub uninterp spec fn sha256_fed(s: Sha256State) -> Seq<u8>;

/// The bytes fed to a SHA3-256 hasher since it was created or last finalized.
pub uninterp spec fn sha3_256_fed(s: Sha3_256State) -> Seq<u8>;

/// A SHA-256 streaming hash state.  The verifier sees it only through
/// `sha256_fed`, the bytes it has absorbed.
#[verifier::external_body]
pub struct Sha256State {
    inner: sha2::Sha256,
}

/// A SHA3-256 streaming hash state, seen only through `sha3_256_fed`.
#[verifier::external_body]
pub struct Sha3_256State {
    inner: sha3::Sha3_256,
}

impl Sha256State {
    /// Relies on sha2's `Digest::new`: a fresh hasher has absorbed no input.
    #[verifier::external_body]
    pub(crate) fn new() -> (s: Self)
        ensures
            sha256_fed(s) == Seq::<u8>::empty(),
    {
        Sha256State { inner: <sha2::Sha256 as sha2::Digest>::new() }
    }

    /// Relies on sha2's `Digest::update`: feeding bytes appends them to the
    /// absorbed input.
    #[verifier::external_body]
    pub(crate) fn update(&mut self, input: &[u8])
        ensures
            sha256_fed(*final(self)) == sha256_fed(*old(self)) + input@,
    {
        sha2::Digest::update(&mut self.inner, input);
    }

    /// Relies on sha2's `Digest::finalize_into_reset`: writes the 32-byte
    /// digest of all absorbed input into `out` and resets the hasher to its
    /// initial state.
    #[verifier::external_body]
    pub(crate) fn finalize_reset_into(&mut self, out: &mut [u8])
        requires
            old(out)@.len() == 32,
        ensures
            final(out)@ == sha256_digest(sha256_fed(*old(self))),
            final(out)@.len() == 32,
            sha256_fed(*final(self)) == Seq::<u8>::empty(),
    {
        sha2::Digest::finalize_into_reset(&mut self.inner, out.into());
    }
}

impl Sha3_256State {
    /// Relies on sha3's `Digest::new`: a fresh hasher has absorbed no input.
    #[verifier::external_body]
    pub(crate) fn new() -> (s: Self)
        ensures
            sha3_256_fed(s) == Seq::<u8>::empty(),
    {
        Sha3_256State { inner: <sha3::Sha3_256 as sha3::Digest>::new() }
    }

    /// Relies on sha3's `Digest::update`: feeding bytes appends them to the
    /// absorbed input.
    #[verifier::external_body]
    pub(crate) fn update(&mut self, input: &[u8])
        ensures
            sha3_256_fed(*final(self)) == sha3_256_fed(*old(self)) + input@,
    {
        sha3::Digest::update(&mut self.inner, input);
    }

    /// Relies on sha3's `Digest::finalize_into_reset`: writes the 32-byte
    /// digest of all absorbed input into `out` and resets the hasher to its
    /// initial state.
    #[verifier::external_body]
    pub(crate) fn finalize_reset_into(&mut self, out: &mut [u8])
        requires
            old(out)@.len() == 32,
        ensures
            final(out)@ == sha3_256_digest(sha3_256_fed(*old(self))),
            final(out)@.len() == 32,
            sha3_256_fed(*final(self)) == Seq::<u8>::empty(),
    {
        sha3::Digest::finalize_into_reset(&mut self.inner, out.into());
    }
}

} // verus!
