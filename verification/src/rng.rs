//! RNG capability: fills a buffer completely with randomness from the
//! platform's entropy source. On a host build the source is the operating
//! system's cryptographically secure generator, reached through `rand`.

use vstd::prelude::*;

use crate::Error;

verus! {

/// RNG interface: the single capability operation.
pub trait Api: Sized {
    spec fn ens_fill(pre: Self, post: Self, buf_pre: Seq<u8>, buf_post: Seq<u8>, r: Result<
        (),
        Error,
    >) -> bool;

    /// Fills `buffer` completely with randomness.
    fn fill_bytes(&mut self, buffer: &mut Vec<u8>) -> (r: Result<(), Error>)
        ensures
            Self::ens_fill(*old(self), *final(self), old(buffer)@, final(buffer)@, r),
    ;
}

#[verifier::external_type_specification]
#[verifier::external_body]
pub struct ExThreadRng(rand::rngs::ThreadRng);

/// Relies on `rand::rng`: a handle to the thread-local generator, seeded by
/// the operating system. It aborts if the entropy source itself faults at
/// first seeding, which has no meaningful recovery at this layer.
#[verifier::external_body]
fn thread_rng() -> rand::rngs::ThreadRng {
    rand::rng()
}

/// Relies on `rand::Rng::fill_bytes` for `ThreadRng`: fills the buffer
/// entirely with new data. The bytes are random, so only the length is
/// stated.
#[verifier::external_body]
fn rng_fill(rng: &mut rand::rngs::ThreadRng, buffer: &mut Vec<u8>)
    ensures
        final(buffer)@.len() == old(buffer)@.len(),
{
    rand::Rng::fill_bytes(rng, buffer.as_mut_slice());
}

/// The host board handle: its entropy source is the operating system's
/// generator.
pub struct Board;

impl Api for Board {
    open spec fn ens_fill(pre: Self, post: Self, buf_pre: Seq<u8>, buf_post: Seq<u8>, r: Result<
        (),
        Error,
    >) -> bool {
        r is Ok && buf_post.len() == buf_pre.len()
    }

    /// Always succeeds and never changes the buffer's length.
    fn fill_bytes(&mut self, buffer: &mut Vec<u8>) -> (r: Result<(), Error>) {
        let mut rng = thread_rng();
        rng_fill(&mut rng, buffer);
        Ok(())
    }
}

} // verus!
