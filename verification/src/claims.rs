//! Claims: what a TLS engine states about a session when it reaches a
//! milestone of the handshake, and the ledger that collects the claims of all
//! agents of one run.

use vstd::prelude::*;
use vstd::std_specs::cmp::PartialEqSpecImpl;

verus! {

/// The version number that TLS 1.2 puts on the wire.
pub const TLS1_2_VERSION: i32 = 0x0303;

/// The version number that TLS 1.3 puts on the wire.
pub const TLS1_3_VERSION: i32 = 0x0304;

/// Secrets are stored in a field of this many bytes, unused bytes being zero.
pub const CLAIM_MAX_SECRET_SIZE: usize = 64;

/// The length of a client or server random.
pub const CLAIM_RANDOM_SIZE: usize = 32;

/// Session ids are stored in a field of this many bytes.
pub const CLAIM_SESSION_ID_SIZE: usize = 32;

/// Whether two byte arrays of one length hold the same bytes.
pub fn bytes_equal<const N: usize>(a: &[u8; N], b: &[u8; N]) -> (r: bool)
    ensures
        r == (a@ == b@),
{
    let mut i: usize = 0;
    while i < N
        invariant
            i <= N,
            forall|j: int| 0 <= j < i ==> a@[j] == b@[j],
        decreases N - i,
    {
        if a[i] != b[i] {
            return false;
        }
        i = i + 1;
    }
    assert(a@ =~= b@);
    true
}

/// The names of the agents of a run.
#[derive(Clone, Copy, Debug, PartialEq, Eq, Hash, Structural)]
pub struct AgentName(pub u8);

/// The milestone of the handshake at which a claim was made.
#[derive(Clone, Copy, Debug, PartialEq, Eq, Hash, Structural)]
pub enum ClaimType {
    Unknown,
    Finished,
    ClientHello,
    ChangeCipherSpec,
    EndOfEarlyData,
    Certificate,
    KeyExchange,
    CertificateVerify,
    ServerHello,
    EncryptedExtensions,
    CertificateRequest,
    ServerDone,
    SessionTicket,
}

/// The protocol version that a session has negotiated, as on the wire.
#[derive(Clone, Copy, Debug, PartialEq, Eq, Structural)]
pub struct ClaimVersion {
    pub data: i32,
}

/// A cipher suite, by its number.
#[derive(Clone, Copy, Debug, PartialEq, Eq, Structural)]
pub struct ClaimCipher {
    pub data: u16,
}

/// A client or server random.
#[derive(Clone, Copy, Debug)]
pub struct ClaimRandom {
    pub data: [u8; 32],
}

impl PartialEq for ClaimRandom {
    fn eq(&self, other: &Self) -> (r: bool) {
        bytes_equal(&self.data, &other.data)
    }
}

impl Eq for ClaimRandom {

}

impl PartialEqSpecImpl for ClaimRandom {
    open spec fn obeys_eq_spec() -> bool {
        true
    }

    open spec fn eq_spec(&self, other: &Self) -> bool {
        self.data@ == other.data@
    }
}

/// A session id: `length` says how many bytes of `data` belong to it.
#[derive(Clone, Copy, Debug)]
pub struct ClaimSessionId {
    pub length: u8,
    pub data: [u8; 32],
}

impl PartialEq for ClaimSessionId {
    fn eq(&self, other: &Self) -> (r: bool) {
        self.length == other.length && bytes_equal(&self.data, &other.data)
    }
}

impl Eq for ClaimSessionId {

}

impl PartialEqSpecImpl for ClaimSessionId {
    open spec fn obeys_eq_spec() -> bool {
        true
    }

    open spec fn eq_spec(&self, other: &Self) -> bool {
        self.length == other.length && self.data@ == other.data@
    }
}

/// A secret of the key schedule.
#[derive(Clone, Copy, Debug)]
pub struct ClaimSecret {
    pub secret: [u8; 64],
}

impl PartialEq for ClaimSecret {
    fn eq(&self, other: &Self) -> (r: bool) {
        bytes_equal(&self.secret, &other.secret)
    }
}

impl Eq for ClaimSecret {

}

impl PartialEqSpecImpl for ClaimSecret {
    open spec fn obeys_eq_spec() -> bool {
        true
    }

    open spec fn eq_spec(&self, other: &Self) -> bool {
        self.secret@ == other.secret@
    }
}

/// Every byte of `bytes` is zero.
pub open spec fn all_zero(bytes: Seq<u8>) -> bool {
    forall|i: int| 0 <= i < bytes.len() ==> bytes[i] == 0
}

/// What one party states about a session at one milestone. Every field is
/// always there; one that does not apply to the milestone or to the version
/// is zero.
#[derive(Clone, Copy, Debug)]
pub struct Claim {
    /// The milestone.
    pub typ: ClaimType,
    /// 1 where the party sent the message of the milestone, 0 where it
    /// received it.
    pub write: i32,
    /// 1 where the party is the server, 0 where it is the client.
    pub server: i32,
    pub version: ClaimVersion,
    pub session_id: ClaimSessionId,
    pub server_random: ClaimRandom,
    pub client_random: ClaimRandom,
    pub chosen_cipher: ClaimCipher,
    pub signature_algorithm: i32,
    pub peer_signature_algorithm: i32,
    /// The master secret of a TLS 1.3 session.
    pub master_secret: ClaimSecret,
    /// The master secret of a TLS 1.2 session.
    pub master_secret_12: ClaimSecret,
    /// The kind of the party's own ephemeral key.
    pub tmp_skey_type: i32,
    /// The group of the party's own ephemeral key.
    pub tmp_skey_group_id: i32,
    /// The kind of the peer's ephemeral key.
    pub peer_tmp_skey_type: i32,
}

impl Claim {
    /// Every number and every byte of the claim is zero, and its milestone is
    /// [`ClaimType::Unknown`].
    pub open spec fn is_blank(self) -> bool {
        &&& self.typ == ClaimType::Unknown
        &&& self.write == 0
        &&& self.server == 0
        &&& self.version.data == 0
        &&& self.session_id.length == 0
        &&& all_zero(self.session_id.data@)
        &&& all_zero(self.server_random.data@)
        &&& all_zero(self.client_random.data@)
        &&& self.chosen_cipher.data == 0
        &&& self.signature_algorithm == 0
        &&& self.peer_signature_algorithm == 0
        &&& all_zero(self.master_secret.secret@)
        &&& all_zero(self.master_secret_12.secret@)
        &&& self.tmp_skey_type == 0
        &&& self.tmp_skey_group_id == 0
        &&& self.peer_tmp_skey_type == 0
    }
}

impl Default for Claim {
    /// The blank claim, from which a claim is made by setting the fields that
    /// apply.
    fn default() -> (c: Claim)
        ensures
            c.is_blank(),
    {
        Claim {
            typ: ClaimType::Unknown,
            write: 0,
            server: 0,
            version: ClaimVersion { data: 0 },
            session_id: ClaimSessionId { length: 0, data: [0u8; 32] },
            server_random: ClaimRandom { data: [0u8; 32] },
            client_random: ClaimRandom { data: [0u8; 32] },
            chosen_cipher: ClaimCipher { data: 0 },
            signature_algorithm: 0,
            peer_signature_algorithm: 0,
            master_secret: ClaimSecret { secret: [0u8; 64] },
            master_secret_12: ClaimSecret { secret: [0u8; 64] },
            tmp_skey_type: 0,
            tmp_skey_group_id: 0,
            peer_tmp_skey_type: 0,
        }
    }
}

/// The ledger after `entries` were appended to `ledger`, one after the other.
pub open spec fn appended(ledger: Seq<(AgentName, Claim)>, entries: Seq<(AgentName, Claim)>) -> Seq<
    (AgentName, Claim),
>
    decreases entries.len(),
{
    if entries.len() == 0 {
        ledger
    } else {
        appended(ledger.push(entries.first()), entries.drop_first())
    }
}

/// The claims of all agents of one run, in the order in which they were made.
/// Claims are only ever added, at the end.
pub struct ClaimLedger {
    claims: Vec<(AgentName, Claim)>,
}

impl View for ClaimLedger {
    type V = Seq<(AgentName, Claim)>;

    closed spec fn view(&self) -> Seq<(AgentName, Claim)> {
        self.claims@
    }
}

impl ClaimLedger {
    /// A ledger without claims.
    pub fn new() -> (ledger: ClaimLedger)
        ensures
            ledger@ == Seq::<(AgentName, Claim)>::empty(),
    {
        ClaimLedger { claims: Vec::new() }
    }

    /// Records that `agent` made `claim`, behind all claims recorded so far.
    pub fn append(&mut self, agent: AgentName, claim: Claim)
        ensures
            final(self)@ == old(self)@.push((agent, claim)),
            old(self)@.is_prefix_of(final(self)@),
    {
        self.claims.push((agent, claim));
    }

    /// How many claims the ledger holds.
    pub fn len(&self) -> (n: usize)
        ensures
            n == self@.len(),
    {
        self.claims.len()
    }

    /// The claims recorded so far, oldest first.
    pub fn claims(&self) -> (claims: &Vec<(AgentName, Claim)>)
        ensures
            claims@ == self@,
    {
        &self.claims
    }
}

/// Ledger monotonicity. Whatever is appended to a ledger between two looks at
/// it, what the first look saw is a prefix of what the second one sees: no
/// claim is ever removed, changed or moved.
pub proof fn lemma_ledger_monotone(earlier: Seq<(AgentName, Claim)>, entries: Seq<(AgentName, Claim)>)
    ensures
        appended(earlier, entries) == earlier + entries,
        earlier.is_prefix_of(appended(earlier, entries)),
    decreases entries.len(),
{
    if entries.len() == 0 {
        assert(earlier + entries =~= earlier);
    } else {
        lemma_ledger_monotone(earlier.push(entries.first()), entries.drop_first());
        assert(earlier.push(entries.first()) + entries.drop_first() =~= earlier + entries);
    }
}

} // verus!
