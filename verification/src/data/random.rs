//! Random session ids, drawn from the operating system through `ring`.

use vstd::prelude::*;

verus! {

/// `ring`'s handle to the operating system's random source.
#[verifier::external_type_specification]
#[verifier::external_body]
pub struct ExSystemRandom(ring::rand::SystemRandom);

/// `ring`'s error without detail.
#[verifier::external_type_specification]
#[verifier::external_body]
pub struct ExUnspecified(ring::error::Unspecified);

/// `SystemRandom::new`: always succeeds and touches nothing; the source is
/// first read by `fill`.
pub assume_specification[ ring::rand::SystemRandom::new ]() -> ring::rand::SystemRandom;

/// `SecureRandom::fill`: fills `dest` with random bytes, or fails where the
/// operating system gives none. Nothing is known of the bytes.
#[verifier::external_body]
fn fill(rng: &ring::rand::SystemRandom, dest: &mut [u8; 8]) -> (res: Result<(), ring::error::Unspecified>)
{
    ring::rand::SecureRandom::fill(rng, dest)
}

/// The number that `bytes` spell, highest byte first.
pub open spec fn be_value(bytes: Seq<u8>) -> nat
    decreases bytes.len(),
{
    if bytes.len() == 0 {
        0
    } else {
        be_value(bytes.drop_last()) * 256 + bytes.last() as nat
    }
}

/// The greatest number that `n` bytes spell.
pub open spec fn be_max(n: nat) -> nat
    decreases n,
{
    if n == 0 {
        0
    } else {
        be_max((n - 1) as nat) * 256 + 255
    }
}

/// Eight bytes spell a `u64`, and every `u64` at most.
proof fn lemma_be_max_of_eight()
    ensures
        be_max(8) == u64::MAX,
{
    reveal_with_fuel(be_max, 9);
}

/// The `u64` that eight bytes spell, highest byte first.
pub fn u64_from_be_bytes(bytes: &[u8; 8]) -> (value: u64)
    ensures
        value == be_value(bytes@),
{
    let mut value: u64 = 0;
    let mut i: usize = 0;
    while i < 8
        invariant
            i <= 8,
            value == be_value(bytes@.take(i as int)),
            value <= be_max(i as nat),
        decreases 8 - i,
    {
        proof {
            lemma_be_max_of_eight();
            reveal_with_fuel(be_max, 9);
            assert(bytes@.take(i + 1).drop_last() =~= bytes@.take(i as int));
            assert(be_max(i as nat) * 256 + 255 <= be_max(8)) by {
                lemma_be_max_rises((i + 1) as nat, 8);
            }
        }
        value = value * 256 + bytes[i] as u64;
        i += 1;
    }
    assert(bytes@.take(8) =~= bytes@);
    value
}

/// More bytes spell greater numbers.
proof fn lemma_be_max_rises(m: nat, n: nat)
    requires
        m <= n,
    ensures
        be_max(m) <= be_max(n),
    decreases n,
{
    if m < n {
        lemma_be_max_rises(m, (n - 1) as nat);
    }
}

/// What a draw gives: the number that the eight bytes spell where the
/// random source filled them, and `None` where it failed.
pub fn id_of_draw(outcome: Result<(), ring::error::Unspecified>, bytes: &[u8; 8]) -> (drawn: Option<u64>)
    ensures
        outcome is Ok ==> drawn == Some(be_value(bytes@) as u64),
        outcome is Err ==> drawn is None,
{
    match outcome {
        Ok(_) => Some(u64_from_be_bytes(bytes)),
        Err(_) => None,
    }
}

/// Eight random bytes as a `u64`, or `None` where the operating system's
/// random source fails.
pub fn get_random() -> (drawn: Option<u64>) {
    let rng = ring::rand::SystemRandom::new();
    let mut buf = [0u8; 8];
    let outcome = fill(&rng, &mut buf);
    id_of_draw(outcome, &buf)
}

} // verus!
