//! The peer's identity: an elliptic-curve public key, modelled in the
//! library as its 33-byte compressed encoding so that the registry-membership
//! check can be carried out, and verified, on plain bytes.

use vstd::prelude::*;
use bitcoin::secp256k1::PublicKey;

verus! {

#[verifier::external_type_specification]
#[verifier::external_body]
pub struct ExPublicKey(PublicKey);

/// Whether a piece of text is a well-formed encoding of a public key: hex
/// that decodes to a valid compressed or uncompressed curve point.
pub uninterp spec fn peer_key_text_valid(s: Seq<char>) -> bool;

/// Relies on secp256k1's `PublicKey::from_str`: it returns `Ok` exactly when
/// the text is hex of a valid 33- or 65-byte curve-point encoding, and its
/// result depends on the text alone.
#[verifier::external_body]
fn parse_public_key(text: &str) -> (r: Option<PublicKey>)
    ensures
        r is Some <==> peer_key_text_valid(text@),
{
    match <PublicKey as core::str::FromStr>::from_str(text) {
        Ok(key) => Some(key),
        Err(_) => None,
    }
}

/// The compressed 33-byte encoding of a public key: a function of the key
/// alone.
pub uninterp spec fn encoding_of(k: PublicKey) -> Seq<u8>;

/// Relies on secp256k1's `PublicKey::serialize`: the compressed encoding of a
/// public key is exactly 33 bytes and depends on the key alone.
#[verifier::external_body]
fn compressed_bytes(key: &PublicKey) -> (r: Vec<u8>)
    ensures
        r@ == encoding_of(*key),
        r@.len() == 33,
{
    key.serialize().to_vec()
}

/// A peer identity as the library models it: the compressed encoding of the
/// peer's public key, held as plain bytes.
#[derive(Debug)]
pub struct PeerId {
    pub bytes: Vec<u8>,
}

impl PeerId {
    /// A well-formed peer identity holds a full compressed encoding.
    pub open spec fn wf(self) -> bool {
        self.bytes@.len() == 33
    }
}

/// The compressed-encoding model of a public key: it holds exactly that
/// key's encoding.
pub fn peer_id_from_key(key: &PublicKey) -> (r: PeerId)
    ensures
        r.wf(),
        r.bytes@ == encoding_of(*key),
{
    PeerId { bytes: compressed_bytes(key) }
}

/// Parses the textual form of a peer's public key, yielding both the key
/// itself — the dial target — and the library's byte model of it: the model
/// holds exactly the encoding of the key that is dialled. Succeeds exactly on
/// well-formed key text.
pub fn parse_peer(text: &str) -> (r: Option<(PublicKey, PeerId)>)
    ensures
        r is Some <==> peer_key_text_valid(text@),
        r matches Some(p) ==> p.1.wf() && p.1.bytes@ == encoding_of(p.0),
{
    match parse_public_key(text) {
        Some(key) => {
            let id = peer_id_from_key(&key);
            Some((key, id))
        }
        None => None,
    }
}

/// Whether two byte strings are equal.
fn bytes_eq(a: &Vec<u8>, b: &Vec<u8>) -> (r: bool)
    ensures
        r <==> a@ == b@,
{
    if a.len() != b.len() {
        return false;
    }
    let mut i: usize = 0;
    while i < a.len()
        invariant
            a@.len() == b@.len(),
            0 <= i <= a@.len(),
            forall|j: int| 0 <= j < i ==> a@[j] == b@[j],
        decreases a@.len() - i,
    {
        if a[i] != b[i] {
            return false;
        }
        i = i + 1;
    }
    proof {
        assert(a@ =~= b@);
    }
    true
}

/// A registry snapshot contains a peer exactly when some entry carries the
/// same compressed encoding.
pub open spec fn ids_contain(ids: Seq<PeerId>, target: PeerId) -> bool {
    exists|i: int| 0 <= i < ids.len() && ids[i].bytes@ == target.bytes@
}

/// The membership check the polling loop races against the lifetime signal:
/// whether a snapshot of the registry of authenticated peers contains the
/// dialled peer.
pub fn registry_contains(ids: &Vec<PeerId>, target: &PeerId) -> (r: bool)
    ensures
        r <==> ids_contain(ids@, *target),
{
    let mut i: usize = 0;
    while i < ids.len()
        invariant
            0 <= i <= ids@.len(),
            forall|j: int| 0 <= j < i ==> ids@[j].bytes@ != target.bytes@,
        decreases ids@.len() - i,
    {
        if bytes_eq(&ids[i].bytes, &target.bytes) {
            proof {
                assert(ids_contain(ids@, *target)) by {
                    assert(ids@[i as int].bytes@ == target.bytes@);
                }
            }
            return true;
        }
        i = i + 1;
    }
    false
}

} // verus!
