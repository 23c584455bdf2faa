//! Upload payloads: buffers of a requested size with non-deterministic
//! content, independent across calls.

use vstd::prelude::*;

verus! {

/// Relies on rand::thread_rng and rand::RngCore::fill_bytes: fills the buffer
/// in place with bytes from the thread-local generator; the length is not
/// changed. The content depends on the generator's state, so nothing is
/// stated about it.
#[verifier::external_body]
fn fill_random(buf: &mut Vec<u8>)
    ensures
        final(buf)@.len() == old(buf)@.len(),
{
    rand::RngCore::fill_bytes(&mut rand::thread_rng(), buf.as_mut_slice());
}

/// A payload of exactly `size` bytes of non-deterministic content.
pub fn generate_random_data(size: usize) -> (r: Vec<u8>)
    ensures
        r@.len() == size,
{
    let mut buf: Vec<u8> = Vec::new();
    while buf.len() < size
        invariant
            buf@.len() <= size,
        decreases size - buf@.len(),
    {
        buf.push(0);
    }
    fill_random(&mut buf);
    buf
}

/// Law of payload generation: the length of a payload depends on the
/// requested size alone, so two generations for the same size, whatever their
/// contents, have identical length.
pub proof fn lemma_payload_length_deterministic(a: Seq<u8>, b: Seq<u8>, size: int)
    requires
        a.len() == size,
        b.len() == size,
    ensures
        a.len() == b.len(),
{
}

} // verus!
