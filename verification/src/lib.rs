//! A small cryptographic hashing library behind a stable, C-friendly
//! boundary: callers initialize an opaque context for a chosen algorithm,
//! feed it input incrementally, and finalize it to obtain a digest.
//! A few self-contained exercise modules (temperature conversion, Fibonacci,
//! geometric shapes, references, a toy bank, wide unsigned addition) share
//! the crate.
use vstd::prelude::*;

pub mod bank;
pub mod bignum;
pub mod calc;
pub mod crypto;
pub mod figures;
pub mod hashers;
pub mod internal_hash_context;
pub mod refs;
pub mod song;

verus! {

/// Stable integer naming SHA-256 at the boundary.
pub const SHA256_ALG_ID: u32 = 0;

/// Stable integer naming SHA3-256 at the boundary.
pub const SHA3_256_ALG_ID: u32 = 1;

} // verus!
