//! Key exchange without randomness.
//!
//! A TLS endpoint makes a fresh ephemeral key pair for every handshake, from
//! random bytes. To replay a handshake bit for bit, the random bytes are
//! replaced by one fixed byte, repeated as often as needed. A key made so is
//! no secret: it is for reproducible runs and for nothing else.

use vstd::prelude::*;

verus! {

#[verifier::external_type_specification]
#[verifier::external_body]
pub struct ExEphemeralPrivateKey(ring::agreement::EphemeralPrivateKey);

/// The byte that stands in for every random byte.
pub const FIXED_RANDOM_BYTE: u8 = 42;

/// The groups in which a key exchange can be made.
#[derive(Clone, Copy, Debug, PartialEq, Eq, Hash, Structural)]
pub enum KxGroup {
    X25519,
    Secp256r1,
    Secp384r1,
}

/// An ephemeral key pair, ready for one key exchange in its group.
pub struct KeyExchange {
    /// The group of the key pair.
    pub skxg: KxGroup,
    /// The private key.
    pub privkey: ring::agreement::EphemeralPrivateKey,
    /// The public key, as it is sent to the peer.
    pub pubkey: Vec<u8>,
}

/// The public key of the key pair that `ring` makes in `group` when every
/// random byte that it asks for is `byte`, or `None` where `ring` makes no key
/// pair from these bytes.
pub uninterp spec fn fixed_public_key(group: KxGroup, byte: u8) -> Option<Seq<u8>>;

/// Calls `ring::agreement::EphemeralPrivateKey::generate` for the algorithm of
/// `group`, with `ring::test::rand::FixedByteRandom` of `byte` as the source
/// of randomness, and then `compute_public_key` on the key that came back.
/// Nothing comes back where either call fails. The claim is that the outcome
/// depends on the group and the byte alone, both whether a key pair is made and
/// which public key it has: the private key is made from the bytes of the
/// random source and from nothing else, a candidate is refused by its bytes
/// alone, and the public key is computed from the private key. Nothing is
/// claimed of the groups or bytes for which a key pair is made.
#[verifier::external_body]
fn generate_fixed(group: KxGroup, byte: u8) -> (pair: Option<
    (ring::agreement::EphemeralPrivateKey, Vec<u8>),
>)
    ensures
        pair is Some <==> fixed_public_key(group, byte) is Some,
        pair matches Some((_, public)) ==> fixed_public_key(group, byte) == Some(public@),
{
    let algorithm = match group {
        KxGroup::X25519 => &ring::agreement::X25519,
        KxGroup::Secp256r1 => &ring::agreement::ECDH_P256,
        KxGroup::Secp384r1 => &ring::agreement::ECDH_P384,
    };
    let random = ring::test::rand::FixedByteRandom { byte };
    let private = ring::agreement::EphemeralPrivateKey::generate(algorithm, &random).ok()?;
    let public = private.compute_public_key().ok()?;
    Some((private, public.as_ref().to_vec()))
}

impl KeyExchange {
    /// Puts a key pair and its group together. Without a key pair there is no
    /// key exchange.
    pub fn from_key_pair(
        skxg: KxGroup,
        pair: Option<(ring::agreement::EphemeralPrivateKey, Vec<u8>)>,
    ) -> (r: Option<KeyExchange>)
        ensures
            r is Some <==> pair is Some,
            r matches Some(kx) ==> {
                &&& kx.skxg == skxg
                &&& kx.privkey == pair.unwrap().0
                &&& kx.pubkey == pair.unwrap().1
            },
    {
        match pair {
            Some((privkey, pubkey)) => Some(KeyExchange { skxg, privkey, pubkey }),
            None => None,
        }
    }
}

/// Makes the key pair for a key exchange in `skxg` with [`FIXED_RANDOM_BYTE`]
/// in place of every random byte. The key exchange comes back exactly where a
/// key pair can be made from these bytes, and its public key is the one of
/// that key pair: two calls for one group end in the same way and give the
/// same public key.
pub fn deterministic_key_exchange(skxg: KxGroup) -> (r: Option<KeyExchange>)
    ensures
        r is Some <==> fixed_public_key(skxg, FIXED_RANDOM_BYTE) is Some,
        r matches Some(kx) ==> kx.skxg == skxg && fixed_public_key(skxg, FIXED_RANDOM_BYTE)
            == Some(kx.pubkey@),
{
    KeyExchange::from_key_pair(skxg, generate_fixed(skxg, FIXED_RANDOM_BYTE))
}

} // verus!
