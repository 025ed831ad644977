//! The security check of a run: do the two parties of a session agree on it?
//!
//! Each party records what it knew of the session when it received the
//! Finished message of its peer. The checker takes those two claims from the
//! ledger of a run, finds out which one is the client's, and compares them
//! field by field, in a fixed order. The first difference found is the
//! violation reported.

use crate::claims::AgentName;
use crate::claims::Claim;
use crate::claims::ClaimType;
use crate::claims::TLS1_2_VERSION;
use crate::claims::TLS1_3_VERSION;
use vstd::prelude::*;
use vstd::std_specs::cmp::PartialEqSpec;

verus! {

/// What the two parties of a session can be found to disagree on.
#[derive(Clone, Copy, Debug, PartialEq, Eq, Hash, Structural)]
pub enum Violation {
    /// The two claims do not come from one client and one server.
    UnclearRoles,
    /// The negotiated versions differ.
    Versions,
    /// The master secrets differ.
    MasterSecrets,
    /// The session ids differ.
    SessionIds,
    /// The server randoms differ.
    ServerRandom,
    /// The client randoms differ.
    ClientRandom,
    /// In a TLS 1.2 run, the server never claimed to have sent its
    /// ServerHelloDone.
    ServerDoneMissing,
    /// The kinds of the ephemeral keys differ.
    KexMethod,
    /// The groups of the ephemeral keys differ.
    Groups,
    /// The chosen cipher suites differ.
    Ciphers,
    /// Neither party's signature algorithm is the one that its peer saw.
    SignatureAlgorithms,
}

impl Violation {
    /// The text under which the violation is reported.
    pub open spec fn label_text(self) -> Seq<char> {
        match self {
            Violation::UnclearRoles => "Could not choose exactly one server and client"@,
            Violation::Versions => "Mismatching versions"@,
            Violation::MasterSecrets => "Mismatching master secrets"@,
            Violation::SessionIds => "Mismatching session ids"@,
            Violation::ServerRandom => "Mismatching server random"@,
            Violation::ClientRandom => "Mismatching client random"@,
            Violation::ServerDoneMissing => "Server Done not found in server claims"@,
            Violation::KexMethod => "Mismatching ephemeral kex method"@,
            Violation::Groups => "Mismatching groups"@,
            Violation::Ciphers => "Mismatching ciphers"@,
            Violation::SignatureAlgorithms => "mismatching signature algorithms"@,
        }
    }

    /// The text under which the violation is reported.
    pub fn label(&self) -> (text: &'static str)
        ensures
            text@ == self.label_text(),
    {
        match self {
            Violation::UnclearRoles => "Could not choose exactly one server and client",
            Violation::Versions => "Mismatching versions",
            Violation::MasterSecrets => "Mismatching master secrets",
            Violation::SessionIds => "Mismatching session ids",
            Violation::ServerRandom => "Mismatching server random",
            Violation::ClientRandom => "Mismatching client random",
            Violation::ServerDoneMissing => "Server Done not found in server claims",
            Violation::KexMethod => "Mismatching ephemeral kex method",
            Violation::Groups => "Mismatching groups",
            Violation::Ciphers => "Mismatching ciphers",
            Violation::SignatureAlgorithms => "mismatching signature algorithms",
        }
    }
}

/// The entry records that a party received the Finished message of its peer.
pub open spec fn is_finished_received(entry: (AgentName, Claim)) -> bool {
    entry.1.typ == ClaimType::Finished && entry.1.write == 0
}

/// The entry records that a server sent its ServerHelloDone.
pub open spec fn is_server_done_sent(entry: (AgentName, Claim)) -> bool {
    entry.1.write == 1 && entry.1.server == 1 && entry.1.typ == ClaimType::ServerDone
}

/// The entries of the ledger that record a received Finished message, in the
/// order of the ledger.
pub open spec fn finished_received(ledger: Seq<(AgentName, Claim)>) -> Seq<(AgentName, Claim)> {
    ledger.filter(|entry: (AgentName, Claim)| is_finished_received(entry))
}

/// The first entry of the ledger that records a sent ServerHelloDone.
pub open spec fn server_done(ledger: Seq<(AgentName, Claim)>) -> Option<(AgentName, Claim)> {
    let sent = ledger.filter(|entry: (AgentName, Claim)| is_server_done_sent(entry));
    if sent.len() > 0 {
        Some(sent[0])
    } else {
        None
    }
}

/// The client's claim and the server's claim among `a` and `b`, in this
/// order, where exactly one of the two says that it is a server's and the
/// other says that it is a client's.
pub open spec fn client_and_server(a: Claim, b: Claim) -> Option<(Claim, Claim)> {
    if a.server == 1 && b.server == 0 {
        Some((b, a))
    } else if a.server == 0 && b.server == 1 {
        Some((a, b))
    } else {
        None
    }
}

/// One party at least has signed with the algorithm that its peer saw.
pub open spec fn signatures_agree(client: Claim, server: Claim) -> bool {
    client.signature_algorithm == server.peer_signature_algorithm || server.signature_algorithm
        == client.peer_signature_algorithm
}

/// The first disagreement between the two parties of a TLS 1.2 session.
pub open spec fn tls12_violation(client: Claim, server: Claim, ledger: Seq<(AgentName, Claim)>) -> Option<
    Violation,
> {
    if !client.master_secret_12.eq_spec(&server.master_secret_12) {
        Some(Violation::MasterSecrets)
    } else if !client.session_id.eq_spec(&server.session_id) {
        Some(Violation::SessionIds)
    } else if !client.server_random.eq_spec(&server.server_random) {
        Some(Violation::ServerRandom)
    } else if !client.client_random.eq_spec(&server.client_random) {
        Some(Violation::ClientRandom)
    } else if server_done(ledger) is None {
        Some(Violation::ServerDoneMissing)
    } else if server_done(ledger).unwrap().1.tmp_skey_type != client.peer_tmp_skey_type {
        Some(Violation::KexMethod)
    } else if client.chosen_cipher != server.chosen_cipher {
        Some(Violation::Ciphers)
    } else if !signatures_agree(client, server) {
        Some(Violation::SignatureAlgorithms)
    } else {
        None
    }
}

/// The first disagreement between the two parties of a TLS 1.3 session.
pub open spec fn tls13_violation(client: Claim, server: Claim) -> Option<Violation> {
    if !client.master_secret.eq_spec(&server.master_secret) {
        Some(Violation::MasterSecrets)
    } else if !client.session_id.eq_spec(&server.session_id) {
        Some(Violation::SessionIds)
    } else if !client.server_random.eq_spec(&server.server_random) {
        Some(Violation::ServerRandom)
    } else if !client.client_random.eq_spec(&server.client_random) {
        Some(Violation::ClientRandom)
    } else if client.tmp_skey_type != server.tmp_skey_type {
        Some(Violation::KexMethod)
    } else if client.tmp_skey_group_id != server.tmp_skey_group_id {
        Some(Violation::Groups)
    } else if client.chosen_cipher != server.chosen_cipher {
        Some(Violation::Ciphers)
    } else if !signatures_agree(client, server) {
        Some(Violation::SignatureAlgorithms)
    } else {
        None
    }
}

/// The first disagreement between a client and a server, by the version that
/// both have negotiated. Versions other than TLS 1.2 and TLS 1.3 are not
/// checked.
pub open spec fn session_violation(client: Claim, server: Claim, ledger: Seq<(AgentName, Claim)>) -> Option<
    Violation,
> {
    if client.version != server.version {
        Some(Violation::Versions)
    } else if client.version.data == TLS1_2_VERSION {
        tls12_violation(client, server, ledger)
    } else if client.version.data == TLS1_3_VERSION {
        tls13_violation(client, server)
    } else {
        None
    }
}

/// The violation that a ledger shows, if it shows one. A ledger that does not
/// hold exactly two records of a received Finished message shows none.
pub open spec fn violation_of(ledger: Seq<(AgentName, Claim)>) -> Option<Violation> {
    let finished = finished_received(ledger);
    if finished.len() != 2 {
        None
    } else {
        match client_and_server(finished[0].1, finished[1].1) {
            None => Some(Violation::UnclearRoles),
            Some((client, server)) => session_violation(client, server, ledger),
        }
    }
}

/// Calls `itertools::Itertools::collect_tuple` on the items of `items`, in
/// their order, asking for a pair. By its documentation the pair comes back,
/// holding the two items in their order, where there are exactly two items;
/// nothing comes back where there are fewer or more.
#[verifier::external_body]
fn collect_pair<T>(items: Vec<T>) -> (pair: Option<(T, T)>)
    ensures
        pair is Some <==> items@.len() == 2,
        pair matches Some((first, second)) ==> first == items@[0] && second == items@[1],
{
    itertools::Itertools::collect_tuple(items.into_iter())
}

/// Finds the two records of a received Finished message. Where the ledger
/// holds exactly two, they come back in the order of the ledger; where it
/// holds fewer or more, nothing comes back.
pub fn find_finished_messages(claims: &Vec<(AgentName, Claim)>) -> (r: Option<
    (&(AgentName, Claim), &(AgentName, Claim)),
>)
    ensures
        r is Some <==> finished_received(claims@).len() == 2,
        r matches Some((a, b)) ==> *a == finished_received(claims@)[0] && *b == finished_received(
            claims@,
        )[1],
{
    let ghost wanted = |entry: (AgentName, Claim)| is_finished_received(entry);
    let mut found: Vec<&(AgentName, Claim)> = Vec::new();
    let mut i: usize = 0;
    proof {
        reveal(Seq::filter);
        assert(claims@.take(0).filter(wanted) =~= Seq::empty());
    }
    while i < claims.len()
        invariant
            i <= claims@.len(),
            wanted == |entry: (AgentName, Claim)| is_finished_received(entry),
            found@.len() == claims@.take(i as int).filter(wanted).len(),
            forall|j: int|
                0 <= j < found@.len() ==> *found@[j] == claims@.take(i as int).filter(wanted)[j],
        decreases claims@.len() - i,
    {
        let entry = &claims[i];
        proof {
            reveal(Seq::filter);
            assert(claims@.take(i + 1).drop_last() =~= claims@.take(i as int));
        }
        if entry.1.typ == ClaimType::Finished && entry.1.write == 0 {
            found.push(entry);
        }
        i = i + 1;
    }
    assert(claims@.take(i as int) =~= claims@);
    collect_pair(found)
}

/// Tells the client's claim from the server's. Where one of the two claims
/// is a server's and the other is a client's, they come back with the
/// client's first; in every other case nothing comes back.
pub fn get_client_server<'a>(claim_a: &'a Claim, claim_b: &'a Claim) -> (r: Option<
    (&'a Claim, &'a Claim),
>)
    ensures
        r is Some <==> client_and_server(*claim_a, *claim_b) is Some,
        r matches Some((client, server)) ==> Some((*client, *server)) == client_and_server(
            *claim_a,
            *claim_b,
        ),
{
    match claim_a.server {
        1 => match claim_b.server {
            0 => Some((claim_b, claim_a)),
            _ => None,
        },
        0 => match claim_b.server {
            1 => Some((claim_a, claim_b)),
            _ => None,
        },
        _ => None,
    }
}

/// Finds the first record of a ServerHelloDone that a server sent.
pub fn find_server_done(claims: &Vec<(AgentName, Claim)>) -> (r: Option<&(AgentName, Claim)>)
    ensures
        r is Some <==> server_done(claims@) is Some,
        r matches Some(entry) ==> Some(*entry) == server_done(claims@),
{
    let ghost wanted = |entry: (AgentName, Claim)| is_server_done_sent(entry);
    let mut i: usize = 0;
    proof {
        reveal(Seq::filter);
        assert(claims@.take(0).filter(wanted) =~= Seq::empty());
    }
    while i < claims.len()
        invariant
            i <= claims@.len(),
            wanted == |entry: (AgentName, Claim)| is_server_done_sent(entry),
            claims@.take(i as int).filter(wanted).len() == 0,
        decreases claims@.len() - i,
    {
        let entry = &claims[i];
        proof {
            reveal(Seq::filter);
            assert(claims@.take(i + 1).drop_last() =~= claims@.take(i as int));
        }
        if entry.1.write == 1 && entry.1.server == 1 && entry.1.typ == ClaimType::ServerDone {
            proof {
                Seq::filter_distributes_over_add(
                    claims@.take(i + 1),
                    claims@.skip(i + 1),
                    wanted,
                );
                assert(claims@.take(i + 1) + claims@.skip(i + 1) =~= claims@);
            }
            return Some(entry);
        }
        i = i + 1;
    }
    assert(claims@.take(i as int) =~= claims@);
    None
}

/// Compares what the client and the server of a TLS 1.2 session claim.
fn check_tls12(client: &Claim, server: &Claim, claims: &Vec<(AgentName, Claim)>) -> (r: Option<
    Violation,
>)
    ensures
        r == tls12_violation(*client, *server, claims@),
{
    if client.master_secret_12 != server.master_secret_12 {
        return Some(Violation::MasterSecrets);
    }
    if client.session_id != server.session_id {
        return Some(Violation::SessionIds);
    }
    if client.server_random != server.server_random {
        return Some(Violation::ServerRandom);
    }
    if client.client_random != server.client_random {
        return Some(Violation::ClientRandom);
    }
    match find_server_done(claims) {
        Some(server_kex) => {
            if server_kex.1.tmp_skey_type != client.peer_tmp_skey_type {
                return Some(Violation::KexMethod);
            }
        },
        None => {
            return Some(Violation::ServerDoneMissing);
        },
    }
    if client.chosen_cipher != server.chosen_cipher {
        return Some(Violation::Ciphers);
    }
    if !(client.signature_algorithm == server.peer_signature_algorithm
        || server.signature_algorithm == client.peer_signature_algorithm) {
        return Some(Violation::SignatureAlgorithms);
    }
    None
}

/// Compares what the client and the server of a TLS 1.3 session claim.
fn check_tls13(client: &Claim, server: &Claim) -> (r: Option<Violation>)
    ensures
        r == tls13_violation(*client, *server),
{
    if client.master_secret != server.master_secret {
        return Some(Violation::MasterSecrets);
    }
    if client.session_id != server.session_id {
        return Some(Violation::SessionIds);
    }
    if client.server_random != server.server_random {
        return Some(Violation::ServerRandom);
    }
    if client.client_random != server.client_random {
        return Some(Violation::ClientRandom);
    }
    if client.tmp_skey_type != server.tmp_skey_type {
        return Some(Violation::KexMethod);
    }
    if client.tmp_skey_group_id != server.tmp_skey_group_id {
        return Some(Violation::Groups);
    }
    if client.chosen_cipher != server.chosen_cipher {
        return Some(Violation::Ciphers);
    }
    if !(client.signature_algorithm == server.peer_signature_algorithm
        || server.signature_algorithm == client.peer_signature_algorithm) {
        return Some(Violation::SignatureAlgorithms);
    }
    None
}

/// Checks the ledger of a run and says which violation it shows, if any.
pub fn find_violation(claims: &Vec<(AgentName, Claim)>) -> (r: Option<Violation>)
    ensures
        r == violation_of(claims@),
{
    match find_finished_messages(claims) {
        Some((entry_a, entry_b)) => {
            match get_client_server(&entry_a.1, &entry_b.1) {
                Some((client, server)) => {
                    if client.version != server.version {
                        return Some(Violation::Versions);
                    }
                    let version = entry_a.1.version;
                    if version.data == TLS1_2_VERSION {
                        check_tls12(client, server, claims)
                    } else if version.data == TLS1_3_VERSION {
                        check_tls13(client, server)
                    } else {
                        None
                    }
                },
                None => Some(Violation::UnclearRoles),
            }
        },
        None => None,
    }
}

/// Checks the ledger of a run and reports the violation that it shows, by its
/// label. `None` says that none was found.
pub fn is_violation(claims: &Vec<(AgentName, Claim)>) -> (r: Option<&'static str>)
    ensures
        r is Some <==> violation_of(claims@) is Some,
        r matches Some(label) ==> label@ == violation_of(claims@).unwrap().label_text(),
{
    match find_violation(claims) {
        Some(violation) => Some(violation.label()),
        None => None,
    }
}

/// Checker determinism. The verdict on a ledger is a function of the ledger,
/// and of no more of it than its records of a received Finished message and
/// its first record of a sent ServerHelloDone: two ledgers that agree on
/// these get the same verdict. So one ledger gets one verdict, whenever and
/// however often it is checked.
pub proof fn lemma_verdict_is_a_function_of_the_ledger(
    a: Seq<(AgentName, Claim)>,
    b: Seq<(AgentName, Claim)>,
)
    requires
        finished_received(a) == finished_received(b),
        server_done(a) == server_done(b),
    ensures
        violation_of(a) == violation_of(b),
{
}

} // verus!
