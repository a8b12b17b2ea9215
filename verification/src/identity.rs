//! Identity material for one run: a freshly drawn secret key, validated as a
//! curve scalar, and 32 bytes of ephemeral nonce material for the handshake.
//! Both are drawn from the cryptographically secure process-wide random
//! source and live only for the lifetime of one process run.

use vstd::prelude::*;
use bitcoin::secp256k1::SecretKey;

verus! {

#[verifier::external_type_specification]
#[verifier::external_body]
pub struct ExSecretKey(SecretKey);

// Relies on rand's `random`: a value drawn from the thread-local
// cryptographically secure generator. Nothing can be promised of a random
// value, so nothing is.
pub assume_specification<T>[ rand::random::<T> ]() -> (r: T)
    where
        rand::distributions::Standard: rand::distributions::Distribution<T>,
;

/// The order of the secp256k1 group, as 32 big-endian bytes.
pub open spec fn curve_order_be() -> Seq<u8> {
    seq![
        0xffu8, 0xff, 0xff, 0xff, 0xff, 0xff, 0xff, 0xff,
        0xff, 0xff, 0xff, 0xff, 0xff, 0xff, 0xff, 0xfe,
        0xba, 0xae, 0xdc, 0xe6, 0xaf, 0x48, 0xa0, 0x3b,
        0xbf, 0xd2, 0x5e, 0x8c, 0xd0, 0x36, 0x41, 0x41,
    ]
}

/// Big-endian comparison of two equal-length byte strings: whether the first,
/// read as an unsigned number, is strictly smaller.
pub open spec fn be_lt(a: Seq<u8>, b: Seq<u8>) -> bool
    recommends
        a.len() == b.len(),
    decreases a.len(),
{
    a.len() > 0 && (a[0] < b[0] || (a[0] == b[0] && be_lt(a.drop_first(), b.drop_first())))
}

/// Whether 32 bytes form a valid secret key: read big-endian, a nonzero
/// number strictly below the curve order.
pub open spec fn secret_scalar_valid(b: Seq<u8>) -> bool {
    &&& b.len() == 32
    &&& exists|i: int| 0 <= i < b.len() && b[i] != 0
    &&& be_lt(b, curve_order_be())
}

/// The secret key that a given 32 bytes denote: a function of the bytes
/// alone.
pub uninterp spec fn key_of_bytes(b: Seq<u8>) -> SecretKey;

/// Relies on secp256k1's `SecretKey::from_slice`: on a 32-byte input it
/// returns `Ok` exactly when the bytes, read big-endian, are nonzero and
/// strictly below the curve order, and the key it returns depends on the
/// bytes alone.
#[verifier::external_body]
fn secret_key_from_bytes(bytes: &[u8; 32]) -> (r: Option<SecretKey>)
    ensures
        r is Some <==> secret_scalar_valid(bytes@),
        r matches Some(k) ==> k == key_of_bytes(bytes@),
{
    match SecretKey::from_slice(bytes) {
        Ok(key) => Some(key),
        Err(_) => None,
    }
}

/// Interprets 32 bytes of entropy as a secret key, succeeding exactly when
/// they form a valid scalar, and yielding exactly the key those bytes denote.
pub fn secret_key_from_entropy(bytes: &[u8; 32]) -> (r: Option<SecretKey>)
    ensures
        r is Some <==> secret_scalar_valid(bytes@),
        r matches Some(k) ==> k == key_of_bytes(bytes@),
{
    secret_key_from_bytes(bytes)
}

/// The identity material of one run: the secret key, the bytes it was read
/// from, and the ephemeral nonce material handed to the handshake service.
pub struct IdentityMaterial {
    pub secret_key: SecretKey,
    pub secret_bytes: [u8; 32],
    pub ephemeral_bytes: [u8; 32],
}

impl IdentityMaterial {
    /// Well-formed identity material carries secret-key bytes that form a
    /// valid scalar, and its key is exactly the one those bytes denote.
    pub open spec fn wf(self) -> bool {
        &&& secret_scalar_valid(self.secret_bytes@)
        &&& self.secret_key == key_of_bytes(self.secret_bytes@)
    }
}

/// Draws fresh identity material for this run: 32 secret-key bytes and 32
/// ephemeral bytes from the secure random source. Fails only when the drawn
/// bytes are rejected by the secret-key validation, which has cryptographically
/// negligible probability; whenever material is returned, it is well formed:
/// its key is the key of its freshly drawn bytes.
pub fn generate_identity_material() -> (r: Option<IdentityMaterial>)
    ensures
        r matches Some(m) ==> m.wf(),
        r matches Some(m) ==> m.secret_key == key_of_bytes(m.secret_bytes@),
{
    let secret_bytes: [u8; 32] = rand::random();
    let ephemeral_bytes: [u8; 32] = rand::random();
    match secret_key_from_entropy(&secret_bytes) {
        Some(secret_key) => Some(IdentityMaterial { secret_key, secret_bytes, ephemeral_bytes }),
        None => None,
    }
}

/// The handshake service stamps the session with the current time in whole
/// seconds as a 32-bit value. Given the clock reading — `None` when the system
/// clock reports a time before the epoch — this yields that stamp exactly when
/// the reading exists and fits; an absent or oversized reading is fatal for
/// the run.
pub fn handshake_timestamp(secs_since_epoch: Option<u64>) -> (r: Option<u32>)
    ensures
        r is Some <==> (secs_since_epoch matches Some(s) && s <= u32::MAX),
        r matches Some(t) ==> secs_since_epoch == Some(t as u64),
{
    match secs_since_epoch {
        Some(s) => {
            if s <= u32::MAX as u64 {
                Some(s as u32)
            } else {
                None
            }
        }
        None => None,
    }
}

} // verus!
