//! Client identities: the SHA-256 digest of the end-entity certificate.

use vstd::prelude::*;

verus! {

/// The SHA-256 digest of `data`.
pub uninterp spec fn sha256_of(data: Seq<u8>) -> Seq<u8>;

/// Relies on `openssl::sha::sha256`: the SHA-256 digest of the bytes, which
/// depends on them alone.
#[verifier::external_body]
fn sha256(data: &[u8]) -> (r: [u8; 32])
    ensures
        r@ == sha256_of(data@),
{
    openssl::sha::sha256(data)
}

/// The views of a certificate chain.
pub open spec fn chain_view(chain: Seq<Vec<u8>>) -> Seq<Seq<u8>> {
    chain.map_values(|c: Vec<u8>| c@)
}

/// The identity presented by a chain of DER certificates: the digest of the
/// last one, the end-entity certificate; none when no certificate was presented.
pub open spec fn identity_of(chain: Seq<Seq<u8>>) -> Option<Seq<u8>> {
    if chain.len() == 0 {
        None
    } else {
        Some(sha256_of(chain.last()))
    }
}

/// The digest of the end-entity certificate of `chain`, if there is one.
pub fn certificate_identity(chain: &Vec<Vec<u8>>) -> (r: Option<[u8; 32]>)
    ensures
        match r {
            Some(d) => identity_of(chain_view(chain@)) == Some(d@),
            None => identity_of(chain_view(chain@)) is None,
        },
{
    let n = chain.len();
    if n == 0 {
        None
    } else {
        let leaf = &chain[n - 1];
        let d = sha256(leaf.as_slice());
        proof {
            assert(chain_view(chain@).last() == leaf@);
        }
        Some(d)
    }
}

} // verus!
