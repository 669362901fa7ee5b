use vstd::prelude::*;

verus! {

/// The SHA-256 digest of a byte sequence.
pub uninterp spec fn sha256(data: Seq<u8>) -> Seq<u8>;

/// The Keccak-256 digest of a byte sequence.
pub uninterp spec fn keccak256(data: Seq<u8>) -> Seq<u8>;

/// Calls `sha2::Sha256::digest` (the `Digest` trait of the `digest` crate) and
/// moves the 32-byte output into a plain array. Trusted: the result is the
/// SHA-256 digest of `data`, a function of the bytes alone.
#[verifier::external_body]
fn sha256_digest(data: &[u8]) -> (out: [u8; 32])
    ensures
        out@ == sha256(data@),
{
    <sha2::Sha256 as sha2::Digest>::digest(data).into()
}

/// Calls `ethers::utils::keccak256`. Trusted: the result is the Keccak-256
/// digest of `data`, a function of the bytes alone.
#[verifier::external_body]
pub(crate) fn keccak256_digest(data: &[u8]) -> (out: [u8; 32])
    ensures
        out@ == keccak256(data@),
{
    ethers::utils::keccak256(data)
}

/// Content digest of a public-input blob (a journal): SHA-256 over the whole
/// byte sequence, in order.
pub fn digest_public_input(journal_bytes: &[u8]) -> (digest: [u8; 32])
    ensures
        digest@ == sha256(journal_bytes@),
{
    sha256_digest(journal_bytes)
}

/// Content digest of a proof blob (a seal): Keccak-256, the chain's native
/// hash, over the whole byte sequence, in order.
pub fn digest_proof(seal_bytes: &[u8]) -> (digest: [u8; 32])
    ensures
        digest@ == keccak256(seal_bytes@),
{
    keccak256_digest(seal_bytes)
}

/// Equal inputs have equal digests, under either function: a digest depends
/// on nothing but the bytes it is taken of.
pub proof fn law_digests_are_content_addressed(first: Seq<u8>, second: Seq<u8>)
    requires
        first == second,
    ensures
        sha256(first) == sha256(second),
        keccak256(first) == keccak256(second),
{
}

} // verus!
