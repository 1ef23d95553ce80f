//! Outbound call data: a 4-byte function selector taken from the Keccak-256
//! digest of the function's signature, followed by the encoded arguments.

use sha3::Digest;
use vstd::prelude::*;
use vstd::string::StringSliceAdditionalSpecFns;

verus! {

/// The Keccak-256 digest of a byte sequence.
pub uninterp spec fn keccak256_of(data: Seq<u8>) -> Seq<u8>;

/// Relies on `sha3::Keccak256` through `digest::Digest::digest`: the result
/// is the Keccak-256 digest of `data`, whose output size is 32 bytes.
#[verifier::external_body]
fn keccak256(data: &[u8]) -> (r: Vec<u8>)
    ensures
        r@ == keccak256_of(data@),
        r@.len() == 32,
{
    sha3::Keccak256::digest(data).to_vec()
}

/// The call data for a function whose signature has the digest `digest`:
/// the first four bytes of the digest, then the arguments.
pub open spec fn call_data(digest: Seq<u8>, args: Seq<u8>) -> Seq<u8> {
    digest.subrange(0, 4) + args
}

/// The call data for the function with textual signature `sig`.
pub open spec fn call_data_for(sig: Seq<u8>, args: Seq<u8>) -> Seq<u8> {
    call_data(keccak256_of(sig), args)
}

/// The selector held in the first four bytes of a digest.
pub fn selector_from_digest(digest: &[u8]) -> (r: [u8; 4])
    requires
        digest@.len() >= 4,
    ensures
        r@ == digest@.subrange(0, 4),
{
    let r = [digest[0], digest[1], digest[2], digest[3]];
    assert(r@ =~= digest@.subrange(0, 4));
    r
}

/// The 4-byte selector of the function with textual signature `signature`.
pub fn function_selector(signature: &str) -> (r: [u8; 4])
    ensures
        r@ == keccak256_of(signature.spec_bytes()).subrange(0, 4),
{
    let digest = keccak256(signature.as_bytes());
    selector_from_digest(digest.as_slice())
}

/// The selector followed by the encoded arguments.
pub fn payload_from_selector(selector: [u8; 4], args: &[u8]) -> (r: Vec<u8>)
    ensures
        r@ == selector@ + args@,
{
    let mut r: Vec<u8> = Vec::new();
    let mut i: usize = 0;
    while i < 4
        invariant
            i <= 4,
            r@ == selector@.subrange(0, i as int),
        decreases 4 - i,
    {
        r.push(selector[i]);
        i = i + 1;
        assert(r@ =~= selector@.subrange(0, i as int));
    }
    let mut j: usize = 0;
    while j < args.len()
        invariant
            j <= args@.len(),
            r@ == selector@ + args@.subrange(0, j as int),
        decreases args@.len() - j,
    {
        r.push(args[j]);
        j = j + 1;
        assert(r@ =~= selector@ + args@.subrange(0, j as int));
    }
    assert(args@.subrange(0, args@.len() as int) =~= args@);
    r
}

/// The call data for a function whose signature has the digest `digest`.
pub fn payload_from_digest(digest: &[u8], args: &[u8]) -> (r: Vec<u8>)
    requires
        digest@.len() >= 4,
    ensures
        r@ == call_data(digest@, args@),
{
    let selector = selector_from_digest(digest);
    payload_from_selector(selector, args)
}

/// The call data that invokes the function with textual signature
/// `signature` on the arguments `args_encoded`.
pub fn encode_call(signature: &str, args_encoded: &[u8]) -> (r: Vec<u8>)
    ensures
        r@ == call_data_for(signature.spec_bytes(), args_encoded@),
{
    let digest = keccak256(signature.as_bytes());
    payload_from_digest(digest.as_slice(), args_encoded)
}

} // verus!
