use tlspuffin::tls::deterministic_key_exchange;
use tlspuffin::tls::KeyExchange;
use tlspuffin::tls::KxGroup;
use tlspuffin::tls::FIXED_RANDOM_BYTE;

#[test]
fn fixed_byte_is_42() {
    assert_eq!(FIXED_RANDOM_BYTE, 0x2a);
}

#[test]
fn key_exchange_is_made_for_every_group() {
    let x25519 = deterministic_key_exchange(KxGroup::X25519).unwrap();
    assert_eq!(x25519.skxg, KxGroup::X25519);
    assert_eq!(x25519.pubkey.len(), 32);
    let p256 = deterministic_key_exchange(KxGroup::Secp256r1).unwrap();
    assert_eq!(p256.skxg, KxGroup::Secp256r1);
    assert_eq!(p256.pubkey.len(), 65);
    assert_eq!(p256.pubkey[0], 4);
    let p384 = deterministic_key_exchange(KxGroup::Secp384r1).unwrap();
    assert_eq!(p384.skxg, KxGroup::Secp384r1);
    assert_eq!(p384.pubkey.len(), 97);
    assert_eq!(p384.pubkey[0], 4);
}

#[test]
fn two_runs_give_the_same_public_key() {
    for group in [KxGroup::X25519, KxGroup::Secp256r1, KxGroup::Secp384r1] {
        let first = deterministic_key_exchange(group).unwrap();
        let second = deterministic_key_exchange(group).unwrap();
        assert_eq!(first.pubkey, second.pubkey);
    }
}

#[test]
fn groups_have_different_public_keys() {
    let p256 = deterministic_key_exchange(KxGroup::Secp256r1).unwrap();
    let p384 = deterministic_key_exchange(KxGroup::Secp384r1).unwrap();
    assert_ne!(p256.pubkey, p384.pubkey);
}

#[test]
fn two_runs_agree_on_the_shared_secret() {
    let peer_random = ring::rand::SystemRandom::new();
    let peer =
        ring::agreement::EphemeralPrivateKey::generate(&ring::agreement::X25519, &peer_random)
            .unwrap();
    let peer_public = peer.compute_public_key().unwrap();
    let mut secrets = Vec::new();
    for _ in 0..2 {
        let ours = deterministic_key_exchange(KxGroup::X25519).unwrap();
        let theirs = ring::agreement::UnparsedPublicKey::new(
            &ring::agreement::X25519,
            peer_public.as_ref().to_vec(),
        );
        let secret = ring::agreement::agree_ephemeral(
            ours.privkey,
            &theirs,
            ring::error::Unspecified,
            |shared| Ok(shared.to_vec()),
        )
        .unwrap();
        secrets.push(secret);
    }
    assert_eq!(secrets[0], secrets[1]);
    // The peer, with the public key of the fixed key pair, gets the same secret.
    let ours = deterministic_key_exchange(KxGroup::X25519).unwrap();
    let fixed_public = ring::agreement::UnparsedPublicKey::new(&ring::agreement::X25519, ours.pubkey);
    let peer_secret = ring::agreement::agree_ephemeral(
        peer,
        &fixed_public,
        ring::error::Unspecified,
        |shared| Ok(shared.to_vec()),
    )
    .unwrap();
    assert_eq!(peer_secret, secrets[0]);
}

#[test]
fn without_a_key_pair_there_is_no_key_exchange() {
    assert!(KeyExchange::from_key_pair(KxGroup::X25519, None).is_none());
}

#[test]
fn key_pair_is_kept_as_it_is() {
    let made = deterministic_key_exchange(KxGroup::X25519).unwrap();
    let public = made.pubkey.clone();
    let again =
        KeyExchange::from_key_pair(KxGroup::Secp256r1, Some((made.privkey, made.pubkey))).unwrap();
    assert_eq!(again.skxg, KxGroup::Secp256r1);
    assert_eq!(again.pubkey, public);
}
