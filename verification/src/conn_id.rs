use vstd::prelude::*;

verus! {

/// The system's cryptographically secure random number generator.
#[verifier::external_type_specification]
#[verifier::external_body]
pub struct ExSystemRandom(ring::rand::SystemRandom);

/// Opens the system random number generator.
///
/// Trusted: calls `ring::rand::SystemRandom::new`, which only constructs a
/// handle; nothing is stated of it.
#[verifier::external_body]
fn system_random() -> (rng: ring::rand::SystemRandom) {
    ring::rand::SystemRandom::new()
}

/// Fills a buffer with random bytes.
///
/// Trusted: calls `SecureRandom::fill` of `ring::rand::SystemRandom`. The
/// contract states only that the buffer keeps its length and whether the
/// call succeeded is returned; the bytes are random.
#[verifier::external_body]
fn fill_random(rng: &ring::rand::SystemRandom, buf: &mut Vec<u8>) -> (ok: bool)
    ensures
        final(buf)@.len() == old(buf)@.len(),
{
    ring::rand::SecureRandom::fill(rng, buf.as_mut_slice()).is_ok()
}

/// A fresh random source connection ID of `len` bytes; `None` where the
/// system generator fails.
pub fn random_connection_id(len: usize) -> (id: Option<Vec<u8>>)
    ensures
        id matches Some(v) ==> v@.len() == len,
{
    let mut buf: Vec<u8> = vec![0u8; len];
    let rng = system_random();
    let filled = fill_random(&rng, &mut buf);
    connection_id_from(filled, buf)
}

/// The connection ID made of a buffer the generator was asked to fill: the
/// buffer itself where the generator reported success, `None` where it
/// reported failure.
pub fn connection_id_from(filled: bool, bytes: Vec<u8>) -> (id: Option<Vec<u8>>)
    ensures
        filled ==> id == Some(bytes),
        !filled ==> id is None,
{
    if filled {
        Some(bytes)
    } else {
        None
    }
}

} // verus!
