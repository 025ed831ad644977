use tlspuffin::claims::AgentName;
use tlspuffin::claims::Claim;
use tlspuffin::claims::ClaimCipher;
use tlspuffin::claims::ClaimLedger;
use tlspuffin::claims::ClaimRandom;
use tlspuffin::claims::ClaimSecret;
use tlspuffin::claims::ClaimSessionId;
use tlspuffin::claims::ClaimType;
use tlspuffin::claims::ClaimVersion;
use tlspuffin::claims::TLS1_2_VERSION;
use tlspuffin::claims::TLS1_3_VERSION;
use tlspuffin::violation::find_finished_messages;
use tlspuffin::violation::find_server_done;
use tlspuffin::violation::find_violation;
use tlspuffin::violation::get_client_server;
use tlspuffin::violation::is_violation;
use tlspuffin::violation::Violation;

const CLIENT: AgentName = AgentName(0);
const SERVER: AgentName = AgentName(1);

/// What a party of an honest session knows when it has received the
/// Finished message of its peer.
fn finished(server: bool, version: i32) -> Claim {
    let mut claim = Claim::default();
    claim.typ = ClaimType::Finished;
    claim.write = 0;
    claim.server = if server { 1 } else { 0 };
    claim.version = ClaimVersion { data: version };
    claim.session_id = ClaimSessionId { length: 32, data: [7; 32] };
    claim.server_random = ClaimRandom { data: [2; 32] };
    claim.client_random = ClaimRandom { data: [3; 32] };
    claim.chosen_cipher = ClaimCipher { data: 0x1301 };
    claim.signature_algorithm = if server { 0x0804 } else { 0 };
    claim.peer_signature_algorithm = if server { 0 } else { 0x0804 };
    claim.master_secret = ClaimSecret { secret: [0x11; 64] };
    claim.master_secret_12 = ClaimSecret { secret: [0x12; 64] };
    claim.tmp_skey_type = 1034;
    claim.tmp_skey_group_id = 29;
    claim.peer_tmp_skey_type = 1034;
    claim
}

fn server_done(tmp_skey_type: i32) -> Claim {
    let mut claim = Claim::default();
    claim.typ = ClaimType::ServerDone;
    claim.write = 1;
    claim.server = 1;
    claim.version = ClaimVersion { data: TLS1_2_VERSION };
    claim.tmp_skey_type = tmp_skey_type;
    claim
}

fn honest13() -> Vec<(AgentName, Claim)> {
    vec![
        (SERVER, finished(true, TLS1_3_VERSION)),
        (CLIENT, finished(false, TLS1_3_VERSION)),
    ]
}

fn honest12() -> Vec<(AgentName, Claim)> {
    vec![
        (SERVER, server_done(1034)),
        (CLIENT, finished(false, TLS1_2_VERSION)),
        (SERVER, finished(true, TLS1_2_VERSION)),
    ]
}

/// The ledger `base` with its client's and its server's Finished claim
/// changed by `change`.
fn changed(
    base: Vec<(AgentName, Claim)>,
    change: fn(&mut Claim, bool),
) -> Vec<(AgentName, Claim)> {
    let mut ledger = base;
    for entry in ledger.iter_mut() {
        if entry.1.typ == ClaimType::Finished {
            let server = entry.1.server == 1;
            change(&mut entry.1, server);
        }
    }
    ledger
}

#[test]
fn honest_tls13_session_shows_no_violation() {
    assert_eq!(is_violation(&honest13()), None);
    assert_eq!(find_violation(&honest13()), None);
}

#[test]
fn honest_tls12_session_shows_no_violation() {
    assert_eq!(is_violation(&honest12()), None);
}

#[test]
fn empty_ledger_shows_no_violation() {
    assert_eq!(is_violation(&vec![]), None);
}

#[test]
fn mismatched_master_secret() {
    let ledger = changed(honest13(), |claim, server| {
        claim.master_secret = ClaimSecret { secret: if server { [0xff; 64] } else { [0x00; 64] } };
    });
    assert_eq!(is_violation(&ledger), Some("Mismatching master secrets"));
    assert_eq!(find_violation(&ledger), Some(Violation::MasterSecrets));
}

#[test]
fn master_secrets_that_differ_in_the_last_byte() {
    let ledger = changed(honest13(), |claim, server| {
        if server {
            claim.master_secret.secret[63] ^= 1;
        }
    });
    assert_eq!(is_violation(&ledger), Some("Mismatching master secrets"));
}

#[test]
fn tls13_ignores_the_tls12_master_secret() {
    let ledger = changed(honest13(), |claim, server| {
        if server {
            claim.master_secret_12 = ClaimSecret { secret: [0; 64] };
        }
    });
    assert_eq!(is_violation(&ledger), None);
}

#[test]
fn tls12_ignores_the_tls13_master_secret() {
    let ledger = changed(honest12(), |claim, server| {
        if server {
            claim.master_secret = ClaimSecret { secret: [0; 64] };
        }
    });
    assert_eq!(is_violation(&ledger), None);
}

#[test]
fn tls12_mismatched_master_secret() {
    let ledger = changed(honest12(), |claim, server| {
        if !server {
            claim.master_secret_12 = ClaimSecret { secret: [0; 64] };
        }
    });
    assert_eq!(is_violation(&ledger), Some("Mismatching master secrets"));
}

#[test]
fn missing_server_done_in_tls12() {
    let ledger = vec![
        (CLIENT, finished(false, TLS1_2_VERSION)),
        (SERVER, finished(true, TLS1_2_VERSION)),
    ];
    assert_eq!(is_violation(&ledger), Some("Server Done not found in server claims"));
    assert_eq!(find_violation(&ledger), Some(Violation::ServerDoneMissing));
}

#[test]
fn server_done_must_be_written_by_a_server() {
    let mut received = server_done(1034);
    received.write = 0;
    let mut by_client = server_done(1034);
    by_client.server = 0;
    let mut other = server_done(1034);
    other.typ = ClaimType::ServerHello;
    let ledger = vec![
        (CLIENT, received),
        (CLIENT, by_client),
        (SERVER, other),
        (CLIENT, finished(false, TLS1_2_VERSION)),
        (SERVER, finished(true, TLS1_2_VERSION)),
    ];
    assert_eq!(is_violation(&ledger), Some("Server Done not found in server claims"));
    assert!(find_server_done(&ledger).is_none());
}

#[test]
fn first_server_done_counts() {
    let mut ledger = honest12();
    ledger.push((SERVER, server_done(5)));
    assert_eq!(is_violation(&ledger), None);
    assert_eq!(find_server_done(&ledger).unwrap().1.tmp_skey_type, 1034);
    let mut ledger = honest12();
    ledger.insert(0, (SERVER, server_done(5)));
    assert_eq!(is_violation(&ledger), Some("Mismatching ephemeral kex method"));
    assert_eq!(find_server_done(&ledger).unwrap().1.tmp_skey_type, 5);
}

#[test]
fn tls12_compares_the_server_done_with_what_the_client_saw() {
    let ledger = changed(honest12(), |claim, server| {
        if !server {
            claim.peer_tmp_skey_type = 408;
        }
    });
    assert_eq!(is_violation(&ledger), Some("Mismatching ephemeral kex method"));
    // The kinds of the two parties' own keys are not compared in TLS 1.2.
    let ledger = changed(honest12(), |claim, server| {
        if server {
            claim.tmp_skey_type = 408;
            claim.tmp_skey_group_id = 23;
        }
    });
    assert_eq!(is_violation(&ledger), None);
}

#[test]
fn two_servers() {
    let ledger = vec![
        (CLIENT, finished(true, TLS1_3_VERSION)),
        (SERVER, finished(true, TLS1_3_VERSION)),
    ];
    assert_eq!(
        is_violation(&ledger),
        Some("Could not choose exactly one server and client")
    );
    assert_eq!(find_violation(&ledger), Some(Violation::UnclearRoles));
}

#[test]
fn two_clients() {
    let ledger = vec![
        (CLIENT, finished(false, TLS1_3_VERSION)),
        (SERVER, finished(false, TLS1_3_VERSION)),
    ];
    assert_eq!(
        is_violation(&ledger),
        Some("Could not choose exactly one server and client")
    );
}

#[test]
fn a_role_that_is_neither() {
    let mut odd = finished(true, TLS1_3_VERSION);
    odd.server = 2;
    let ledger = vec![(CLIENT, finished(false, TLS1_3_VERSION)), (SERVER, odd)];
    assert_eq!(
        is_violation(&ledger),
        Some("Could not choose exactly one server and client")
    );
    let ledger = vec![(SERVER, odd), (CLIENT, finished(true, TLS1_3_VERSION))];
    assert_eq!(
        is_violation(&ledger),
        Some("Could not choose exactly one server and client")
    );
}

#[test]
fn signature_asymmetry_accepted() {
    let ledger = changed(honest13(), |claim, server| {
        if server {
            claim.signature_algorithm = 0x0403;
            claim.peer_signature_algorithm = 0x0809;
        } else {
            claim.signature_algorithm = 0x0809;
            claim.peer_signature_algorithm = 0x0804;
        }
    });
    assert_eq!(is_violation(&ledger), None);
}

#[test]
fn signature_asymmetry_accepted_the_other_way() {
    let ledger = changed(honest13(), |claim, server| {
        if server {
            claim.signature_algorithm = 0x0403;
            claim.peer_signature_algorithm = 1;
        } else {
            claim.signature_algorithm = 2;
            claim.peer_signature_algorithm = 0x0403;
        }
    });
    assert_eq!(is_violation(&ledger), None);
}

#[test]
fn mismatched_signature_algorithms() {
    let change: fn(&mut Claim, bool) = |claim, server| {
        if server {
            claim.signature_algorithm = 1;
            claim.peer_signature_algorithm = 2;
        } else {
            claim.signature_algorithm = 3;
            claim.peer_signature_algorithm = 4;
        }
    };
    assert_eq!(
        is_violation(&changed(honest13(), change)),
        Some("mismatching signature algorithms")
    );
    assert_eq!(
        find_violation(&changed(honest12(), change)),
        Some(Violation::SignatureAlgorithms)
    );
}

#[test]
fn single_sided_capture() {
    let ledger = vec![(SERVER, finished(true, TLS1_2_VERSION))];
    assert_eq!(is_violation(&ledger), None);
    let ledger = vec![(SERVER, server_done(1034)), (SERVER, finished(true, TLS1_2_VERSION))];
    assert_eq!(is_violation(&ledger), None);
}

#[test]
fn three_finished_claims_are_not_checked() {
    let mut ledger = honest13();
    let mut third = finished(true, TLS1_3_VERSION);
    third.master_secret = ClaimSecret { secret: [0; 64] };
    ledger.push((SERVER, third));
    assert_eq!(is_violation(&ledger), None);
    assert!(find_finished_messages(&ledger).is_none());
}

#[test]
fn sent_finished_claims_do_not_count() {
    let mut ledger = honest13();
    let mut sent = finished(true, TLS1_3_VERSION);
    sent.write = 1;
    sent.master_secret = ClaimSecret { secret: [0; 64] };
    ledger.insert(0, (SERVER, sent));
    ledger.push((CLIENT, sent));
    assert_eq!(is_violation(&ledger), None);
    let (a, b) = find_finished_messages(&ledger).unwrap();
    assert_eq!(a.0, SERVER);
    assert_eq!(a.1.write, 0);
    assert_eq!(b.0, CLIENT);
}

#[test]
fn mismatched_versions() {
    let ledger = vec![
        (CLIENT, finished(false, TLS1_3_VERSION)),
        (SERVER, finished(true, TLS1_2_VERSION)),
    ];
    assert_eq!(is_violation(&ledger), Some("Mismatching versions"));
    assert_eq!(find_violation(&ledger), Some(Violation::Versions));
}

#[test]
fn other_versions_are_not_checked() {
    let ledger = changed(honest13(), |claim, server| {
        claim.version = ClaimVersion { data: 0x0302 };
        if server {
            claim.master_secret = ClaimSecret { secret: [0; 64] };
            claim.master_secret_12 = ClaimSecret { secret: [0; 64] };
            claim.chosen_cipher = ClaimCipher { data: 1 };
        }
    });
    assert_eq!(is_violation(&ledger), None);
}

#[test]
fn mismatched_session_ids() {
    let ledger = changed(honest13(), |claim, server| {
        if server {
            claim.session_id.data[0] = 0;
        }
    });
    assert_eq!(is_violation(&ledger), Some("Mismatching session ids"));
    let ledger = changed(honest12(), |claim, server| {
        if server {
            claim.session_id.length = 16;
        }
    });
    assert_eq!(find_violation(&ledger), Some(Violation::SessionIds));
}

#[test]
fn mismatched_server_random() {
    let change: fn(&mut Claim, bool) = |claim, server| {
        if !server {
            claim.server_random.data[31] = 0;
        }
    };
    assert_eq!(is_violation(&changed(honest13(), change)), Some("Mismatching server random"));
    assert_eq!(find_violation(&changed(honest12(), change)), Some(Violation::ServerRandom));
}

#[test]
fn mismatched_client_random() {
    let change: fn(&mut Claim, bool) = |claim, server| {
        if !server {
            claim.client_random.data[5] = 0;
        }
    };
    assert_eq!(is_violation(&changed(honest13(), change)), Some("Mismatching client random"));
    assert_eq!(find_violation(&changed(honest12(), change)), Some(Violation::ClientRandom));
}

#[test]
fn tls13_mismatched_kex_method() {
    let ledger = changed(honest13(), |claim, server| {
        if server {
            claim.tmp_skey_type = 408;
        }
    });
    assert_eq!(is_violation(&ledger), Some("Mismatching ephemeral kex method"));
    assert_eq!(find_violation(&ledger), Some(Violation::KexMethod));
}

#[test]
fn tls13_mismatched_groups() {
    let ledger = changed(honest13(), |claim, server| {
        if server {
            claim.tmp_skey_group_id = 23;
        }
    });
    assert_eq!(is_violation(&ledger), Some("Mismatching groups"));
    assert_eq!(find_violation(&ledger), Some(Violation::Groups));
}

#[test]
fn mismatched_ciphers() {
    let change: fn(&mut Claim, bool) = |claim, server| {
        if server {
            claim.chosen_cipher = ClaimCipher { data: 0x1302 };
        }
    };
    assert_eq!(is_violation(&changed(honest13(), change)), Some("Mismatching ciphers"));
    assert_eq!(find_violation(&changed(honest12(), change)), Some(Violation::Ciphers));
}

#[test]
fn first_failing_check_wins() {
    // Everything differs: the master secret is looked at first.
    let all: fn(&mut Claim, bool) = |claim, server| {
        if server {
            claim.master_secret = ClaimSecret { secret: [0; 64] };
            claim.session_id.data[0] = 0;
            claim.server_random.data[0] = 0;
            claim.client_random.data[0] = 0;
            claim.tmp_skey_type = 0;
            claim.tmp_skey_group_id = 0;
            claim.chosen_cipher = ClaimCipher { data: 0 };
            claim.signature_algorithm = 77;
            claim.peer_signature_algorithm = 78;
        }
    };
    assert_eq!(find_violation(&changed(honest13(), all)), Some(Violation::MasterSecrets));
    let from_session_id: fn(&mut Claim, bool) = |claim, server| {
        if server {
            claim.session_id.data[0] = 0;
            claim.server_random.data[0] = 0;
            claim.client_random.data[0] = 0;
            claim.chosen_cipher = ClaimCipher { data: 0 };
        }
    };
    assert_eq!(find_violation(&changed(honest13(), from_session_id)), Some(Violation::SessionIds));
    let from_server_random: fn(&mut Claim, bool) = |claim, server| {
        if server {
            claim.server_random.data[0] = 0;
            claim.client_random.data[0] = 0;
            claim.tmp_skey_type = 0;
        }
    };
    assert_eq!(
        find_violation(&changed(honest13(), from_server_random)),
        Some(Violation::ServerRandom)
    );
    let from_kex: fn(&mut Claim, bool) = |claim, server| {
        if server {
            claim.tmp_skey_type = 0;
            claim.tmp_skey_group_id = 0;
            claim.chosen_cipher = ClaimCipher { data: 0 };
        }
    };
    assert_eq!(find_violation(&changed(honest13(), from_kex)), Some(Violation::KexMethod));
    let from_groups: fn(&mut Claim, bool) = |claim, server| {
        if server {
            claim.tmp_skey_group_id = 0;
            claim.chosen_cipher = ClaimCipher { data: 0 };
            claim.signature_algorithm = 77;
        }
    };
    assert_eq!(find_violation(&changed(honest13(), from_groups)), Some(Violation::Groups));
    let from_cipher: fn(&mut Claim, bool) = |claim, server| {
        if server {
            claim.chosen_cipher = ClaimCipher { data: 0 };
            claim.signature_algorithm = 77;
            claim.peer_signature_algorithm = 78;
        }
    };
    assert_eq!(find_violation(&changed(honest13(), from_cipher)), Some(Violation::Ciphers));
}

#[test]
fn tls12_first_failing_check_wins() {
    // Without a ServerHelloDone, a wrong cipher is not reached.
    let ledger = vec![
        (CLIENT, finished(false, TLS1_2_VERSION)),
        (SERVER, {
            let mut claim = finished(true, TLS1_2_VERSION);
            claim.chosen_cipher = ClaimCipher { data: 0 };
            claim
        }),
    ];
    assert_eq!(find_violation(&ledger), Some(Violation::ServerDoneMissing));
    // With a wrong client random, a missing ServerHelloDone is not reached.
    let ledger = vec![
        (CLIENT, finished(false, TLS1_2_VERSION)),
        (SERVER, {
            let mut claim = finished(true, TLS1_2_VERSION);
            claim.client_random.data[0] = 0;
            claim
        }),
    ];
    assert_eq!(find_violation(&ledger), Some(Violation::ClientRandom));
}

#[test]
fn versions_are_compared_before_anything_else() {
    let ledger = vec![
        (CLIENT, finished(false, TLS1_2_VERSION)),
        (SERVER, {
            let mut claim = finished(true, TLS1_3_VERSION);
            claim.master_secret = ClaimSecret { secret: [0; 64] };
            claim.master_secret_12 = ClaimSecret { secret: [0; 64] };
            claim
        }),
    ];
    assert_eq!(find_violation(&ledger), Some(Violation::Versions));
}

#[test]
fn the_order_of_client_and_server_does_not_matter() {
    let mut ledger = honest13();
    ledger.reverse();
    assert_eq!(is_violation(&ledger), None);
    let swapped = changed(ledger, |claim, server| {
        if !server {
            claim.tmp_skey_group_id = 23;
        }
    });
    assert_eq!(is_violation(&swapped), Some("Mismatching groups"));
}

#[test]
fn checker_gives_one_answer_for_one_ledger() {
    let ledger = changed(honest12(), |claim, server| {
        if server {
            claim.chosen_cipher = ClaimCipher { data: 0xc02f };
        }
    });
    let copy = ledger.clone();
    let first = is_violation(&ledger);
    assert_eq!(first, Some("Mismatching ciphers"));
    assert_eq!(is_violation(&ledger), first);
    assert_eq!(is_violation(&copy), first);
}

#[test]
fn find_finished_messages_wants_exactly_two() {
    assert!(find_finished_messages(&vec![]).is_none());
    assert!(find_finished_messages(&vec![(CLIENT, finished(false, TLS1_3_VERSION))]).is_none());
    let ledger = honest12();
    let (a, b) = find_finished_messages(&ledger).unwrap();
    assert_eq!(a.0, CLIENT);
    assert_eq!(a.1.server, 0);
    assert_eq!(b.0, SERVER);
    assert_eq!(b.1.server, 1);
}

#[test]
fn get_client_server_puts_the_client_first() {
    let client = finished(false, TLS1_3_VERSION);
    let server = finished(true, TLS1_3_VERSION);
    let (c, s) = get_client_server(&client, &server).unwrap();
    assert_eq!((c.server, s.server), (0, 1));
    let (c, s) = get_client_server(&server, &client).unwrap();
    assert_eq!((c.server, s.server), (0, 1));
    assert!(get_client_server(&client, &client).is_none());
    assert!(get_client_server(&server, &server).is_none());
    let mut odd = client;
    odd.server = -1;
    assert!(get_client_server(&odd, &server).is_none());
    assert!(get_client_server(&client, &odd).is_none());
    assert!(get_client_server(&server, &odd).is_none());
}

#[test]
fn every_violation_has_its_label() {
    assert_eq!(
        Violation::UnclearRoles.label(),
        "Could not choose exactly one server and client"
    );
    assert_eq!(Violation::Versions.label(), "Mismatching versions");
    assert_eq!(Violation::MasterSecrets.label(), "Mismatching master secrets");
    assert_eq!(Violation::SessionIds.label(), "Mismatching session ids");
    assert_eq!(Violation::ServerRandom.label(), "Mismatching server random");
    assert_eq!(Violation::ClientRandom.label(), "Mismatching client random");
    assert_eq!(Violation::ServerDoneMissing.label(), "Server Done not found in server claims");
    assert_eq!(Violation::KexMethod.label(), "Mismatching ephemeral kex method");
    assert_eq!(Violation::Groups.label(), "Mismatching groups");
    assert_eq!(Violation::Ciphers.label(), "Mismatching ciphers");
    assert_eq!(Violation::SignatureAlgorithms.label(), "mismatching signature algorithms");
}

#[test]
fn ledger_keeps_what_was_appended() {
    let mut ledger = ClaimLedger::new();
    assert_eq!(ledger.len(), 0);
    assert_eq!(is_violation(ledger.claims()), None);
    ledger.append(CLIENT, finished(false, TLS1_3_VERSION));
    let seen: Vec<AgentName> = ledger.claims().iter().map(|entry| entry.0).collect();
    assert_eq!(seen, vec![CLIENT]);
    ledger.append(SERVER, finished(true, TLS1_3_VERSION));
    ledger.append(SERVER, server_done(1));
    assert_eq!(ledger.len(), 3);
    let later: Vec<AgentName> = ledger.claims().iter().map(|entry| entry.0).collect();
    assert_eq!(later, vec![CLIENT, SERVER, SERVER]);
    assert_eq!(&later[..seen.len()], &seen[..]);
    assert_eq!(ledger.claims()[2].1.typ, ClaimType::ServerDone);
    assert_eq!(is_violation(ledger.claims()), None);
}

#[test]
fn ledger_of_a_broken_session_shows_the_violation() {
    let mut ledger = ClaimLedger::new();
    ledger.append(CLIENT, finished(false, TLS1_3_VERSION));
    assert_eq!(is_violation(ledger.claims()), None);
    let mut server = finished(true, TLS1_3_VERSION);
    server.master_secret = ClaimSecret { secret: [0xff; 64] };
    ledger.append(SERVER, server);
    assert_eq!(is_violation(ledger.claims()), Some("Mismatching master secrets"));
}

#[test]
fn blank_claim_is_all_zero() {
    let claim = Claim::default();
    assert_eq!(claim.typ, ClaimType::Unknown);
    assert_eq!((claim.write, claim.server, claim.version.data), (0, 0, 0));
    assert_eq!(claim.session_id.length, 0);
    assert_eq!(claim.session_id.data, [0; 32]);
    assert_eq!(claim.client_random.data, [0; 32]);
    assert_eq!(claim.server_random.data, [0; 32]);
    assert_eq!(claim.master_secret.secret, [0; 64]);
    assert_eq!(claim.master_secret_12.secret, [0; 64]);
    assert_eq!(claim.chosen_cipher.data, 0);
    assert_eq!((claim.signature_algorithm, claim.peer_signature_algorithm), (0, 0));
    assert_eq!((claim.tmp_skey_type, claim.tmp_skey_group_id, claim.peer_tmp_skey_type), (0, 0, 0));
}

#[test]
fn claim_parts_compare_by_their_bytes() {
    assert!(ClaimSecret { secret: [1; 64] } == ClaimSecret { secret: [1; 64] });
    assert!(ClaimSecret { secret: [1; 64] } != ClaimSecret { secret: [2; 64] });
    assert!(ClaimRandom { data: [1; 32] } == ClaimRandom { data: [1; 32] });
    let mut other = [1; 32];
    other[31] = 0;
    assert!(ClaimRandom { data: [1; 32] } != ClaimRandom { data: other });
    assert!(
        ClaimSessionId { length: 1, data: [1; 32] } != ClaimSessionId { length: 2, data: [1; 32] }
    );
    assert!(tlspuffin::claims::bytes_equal(&[1u8, 2, 3], &[1u8, 2, 3]));
    assert!(!tlspuffin::claims::bytes_equal(&[1u8, 2, 3], &[1u8, 2, 4]));
    assert!(tlspuffin::claims::bytes_equal::<0>(&[], &[]));
}
