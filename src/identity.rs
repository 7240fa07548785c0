use base64::Engine;
use vstd::prelude::*;

use crate::peer::PeerId;

verus! {

/// The name of the record that anchors this node's identity.
pub const IDENTITY_RECORD_NAME: &'static str = "ThisWarehouse";

/// The address advertised in a freshly created identity record.
pub const DEFAULT_LOCATION: &'static str = "/ip4/127.0.0.1/tcp/8080";

/// The capacity written into a freshly created identity record.
pub const DEFAULT_CAPACITY: i32 = 1000;

/// The standard, padded base64 text of some bytes.
pub uninterp spec fn base64_text(b: Seq<u8>) -> Seq<char>;

/// The bytes that a base64 text decodes to under the standard, padded
/// alphabet; `None` when the text is not base64.
pub uninterp spec fn base64_bytes(s: Seq<char>) -> Option<Seq<u8>>;

/// The base-58 peer identifier of an Ed25519 keypair given in its 64-byte
/// form (secret scalar, then public point); `None` when the bytes are not
/// such a keypair.
pub uninterp spec fn keypair_peer_id(b: Seq<u8>) -> Option<Seq<char>>;

/// Relies on `base64::engine::general_purpose::STANDARD.encode`; its text
/// decodes back to the same bytes.
#[verifier::external_body]
fn encode_base64(b: &Vec<u8>) -> (r: String)
    ensures
        r@ == base64_text(b@),
        base64_bytes(r@) == Some(b@),
{
    base64::engine::general_purpose::STANDARD.encode(b)
}

/// Relies on `base64::engine::general_purpose::STANDARD.decode`.
#[verifier::external_body]
fn decode_base64(s: &str) -> (r: Option<Vec<u8>>)
    ensures
        match r {
            Some(v) => base64_bytes(s@) == Some(v@),
            None => base64_bytes(s@) is None,
        },
{
    base64::engine::general_purpose::STANDARD.decode(s).ok()
}

/// Relies on libp2p's `ed25519::Keypair::try_from_bytes`, which takes exactly
/// 64 bytes, and on `PeerId::from_public_key` and `PeerId::to_base58` for the
/// identifier of the keypair read.
#[verifier::external_body]
fn keypair_peer_id_text(b: &Vec<u8>) -> (r: Option<String>)
    ensures
        match r {
            Some(t) => keypair_peer_id(b@) == Some(t@),
            None => keypair_peer_id(b@) is None,
        },
        b@.len() != 64 ==> r is None,
{
    let mut bytes = b.clone();
    match libp2p::identity::ed25519::Keypair::try_from_bytes(&mut bytes) {
        Ok(k) => Some(
            libp2p::PeerId::from_public_key(&libp2p::identity::PublicKey::from(k.public())).to_base58(),
        ),
        Err(_) => None,
    }
}

/// Relies on libp2p's `ed25519::Keypair::generate` and `Keypair::to_bytes`:
/// a fresh random keypair in the 64-byte form that `try_from_bytes` reads.
#[verifier::external_body]
fn generate_keypair_bytes() -> (r: Vec<u8>)
    ensures
        r@.len() == 64,
        keypair_peer_id(r@) is Some,
{
    libp2p::identity::ed25519::Keypair::generate().to_bytes().to_vec()
}

/// A row of the warehouse table as the identity store sees it.
#[derive(Debug, Clone)]
pub struct IdentityRecord {
    pub localkey: Option<String>,
    pub warehouse_name: String,
    pub location: String,
    pub capacity: Option<i32>,
}

/// Why a stored identity could not be used.
#[derive(Debug, Clone, Copy, PartialEq, Eq)]
pub enum IdentityError {
    /// The stored key text is not base64.
    KeyNotBase64,
    /// The decoded bytes are not an Ed25519 keypair.
    KeyNotKeypair,
}

/// The node's keypair, in its 64-byte form, and the peer identifier derived
/// from it.
#[derive(Debug)]
pub struct NodeIdentity {
    key: Vec<u8>,
    peer_id: PeerId,
}

impl View for NodeIdentity {
    type V = (Seq<u8>, Seq<char>);

    closed spec fn view(&self) -> (Seq<u8>, Seq<char>) {
        (self.key@, self.peer_id@)
    }
}

impl NodeIdentity {
    /// The keypair bytes and its identifier agree.
    pub open spec fn wf(&self) -> bool {
        keypair_peer_id(self@.0) == Some(self@.1)
    }

    /// Reads an identity from keypair bytes; `None` when they are not a
    /// keypair.
    pub fn from_keypair_bytes(key: Vec<u8>) -> (r: Option<NodeIdentity>)
        ensures
            match keypair_peer_id(key@) {
                Some(p) => r matches Some(n) && n@ == (key@, p),
                None => r is None,
            },
    {
        match keypair_peer_id_text(&key) {
            Some(t) => Some(NodeIdentity { key, peer_id: PeerId::from_checked_text(t) }),
            None => None,
        }
    }

    /// Creates a fresh random identity.
    pub fn generate() -> (r: NodeIdentity)
        ensures
            r.wf(),
            r@.0.len() == 64,
    {
        let key = generate_keypair_bytes();
        match keypair_peer_id_text(&key) {
            Some(t) => NodeIdentity { key, peer_id: PeerId::from_checked_text(t) },
            None => {
                proof {
                    assert(false);
                }
                NodeIdentity { key, peer_id: PeerId::from_checked_text(String::new()) }
            },
        }
    }

    /// The keypair in its 64-byte form.
    pub fn keypair_bytes(&self) -> (r: &Vec<u8>)
        ensures
            r@ == self@.0,
    {
        &self.key
    }

    /// The peer identifier of the keypair.
    pub fn peer_id(&self) -> (r: &PeerId)
        ensures
            r@ == self@.1,
    {
        &self.peer_id
    }
}

/// A record that carries this node's identity: the sentinel name and a key.
pub open spec fn is_identity_record(r: IdentityRecord) -> bool {
    r.warehouse_name@ == IDENTITY_RECORD_NAME@ && r.localkey is Some
}

/// Whether `i` is the first identity record of `rs`.
pub open spec fn is_first_identity(rs: Seq<IdentityRecord>, i: int) -> bool {
    &&& 0 <= i < rs.len()
    &&& is_identity_record(rs[i])
    &&& forall|j: int| 0 <= j < i ==> !is_identity_record(#[trigger] rs[j])
}

/// Whether some record of `rs` carries an identity.
pub open spec fn has_identity(rs: Seq<IdentityRecord>) -> bool {
    exists|i: int| 0 <= i < rs.len() && is_identity_record(#[trigger] rs[i])
}

/// The index of the first identity record, where there is one.
pub open spec fn first_identity(rs: Seq<IdentityRecord>) -> int {
    choose|i: int| is_first_identity(rs, i)
}

/// What a stored key text yields: the keypair bytes and their identifier,
/// or why it cannot be used.
pub open spec fn identity_from_key_text(t: Seq<char>) -> Result<(Seq<u8>, Seq<char>), IdentityError> {
    match base64_bytes(t) {
        None => Err(IdentityError::KeyNotBase64),
        Some(k) => match keypair_peer_id(k) {
            None => Err(IdentityError::KeyNotKeypair),
            Some(p) => Ok((k, p)),
        },
    }
}

/// The view of an identity result.
pub open spec fn identity_result_view(r: Result<NodeIdentity, IdentityError>) -> Result<
    (Seq<u8>, Seq<char>),
    IdentityError,
> {
    match r {
        Ok(n) => Ok(n@),
        Err(e) => Err(e),
    }
}

/// The record written for a newly generated keypair.
pub open spec fn is_new_identity_record(r: IdentityRecord, key: Seq<u8>) -> bool {
    &&& r.localkey matches Some(t) && t@ == base64_text(key) && base64_bytes(t@) == Some(key)
    &&& r.warehouse_name@ == IDENTITY_RECORD_NAME@
    &&& r.location@ == DEFAULT_LOCATION@
    &&& r.capacity == Some(DEFAULT_CAPACITY)
}

/// What loading or creating the identity does to a store holding `before`:
/// an existing identity record is read and nothing is written; with none, a
/// fresh keypair is generated and exactly one record for it is appended.
pub open spec fn load_or_create_outcome(
    before: Seq<IdentityRecord>,
    after: Seq<IdentityRecord>,
    r: Result<(Seq<u8>, Seq<char>), IdentityError>,
) -> bool {
    if has_identity(before) {
        &&& after == before
        &&& r == identity_from_key_text(before[first_identity(before)].localkey->0@)
    } else {
        &&& r matches Ok(id) && keypair_peer_id(id.0) == Some(id.1)
        &&& after.len() == before.len() + 1
        &&& after.drop_last() == before
        &&& is_new_identity_record(after.last(), r->Ok_0.0)
    }
}

proof fn lemma_first_identity_unique(rs: Seq<IdentityRecord>, i: int, j: int)
    requires
        is_first_identity(rs, i),
        is_first_identity(rs, j),
    ensures
        i == j,
{
    if i < j {
        assert(!is_identity_record(rs[i]));
    } else if j < i {
        assert(!is_identity_record(rs[j]));
    }
}

proof fn lemma_first_identity_exists(rs: Seq<IdentityRecord>)
    requires
        has_identity(rs),
    ensures
        is_first_identity(rs, first_identity(rs)),
    decreases rs.len(),
{
    let k = choose|k: int| 0 <= k < rs.len() && is_identity_record(#[trigger] rs[k]);
    if exists|j: int| 0 <= j < k && is_identity_record(#[trigger] rs[j]) {
        let rest = rs.subrange(0, k);
        assert(has_identity(rest)) by {
            let j = choose|j: int| 0 <= j < k && is_identity_record(#[trigger] rs[j]);
            assert(rest[j] == rs[j]);
        }
        lemma_first_identity_exists(rest);
        let f = first_identity(rest);
        assert(is_first_identity(rs, f)) by {
            assert forall|j: int| 0 <= j < f implies !is_identity_record(#[trigger] rs[j]) by {
                assert(rest[j] == rs[j]);
            }
            assert(rest[f] == rs[f]);
        }
    } else {
        assert(is_first_identity(rs, k));
    }
}

/// The identity anchor of a node: the rows of the warehouse table that the
/// storage collaborator handed over. Rows are only ever appended.
#[derive(Debug)]
pub struct IdentityStore {
    records: Vec<IdentityRecord>,
}

impl View for IdentityStore {
    type V = Seq<IdentityRecord>;

    closed spec fn view(&self) -> Seq<IdentityRecord> {
        self.records@
    }
}

impl IdentityStore {
    /// A store over the rows read from storage.
    pub fn from_records(records: Vec<IdentityRecord>) -> (r: IdentityStore)
        ensures
            r@ == records@,
    {
        IdentityStore { records }
    }

    /// The rows held, in order.
    pub fn records(&self) -> (r: &Vec<IdentityRecord>)
        ensures
            r@ == self@,
    {
        &self.records
    }

    /// The position of the record that anchors this node's identity: the
    /// first one with the sentinel name and a key.
    pub fn find_identity_record(&self) -> (r: Option<usize>)
        ensures
            match r {
                Some(i) => has_identity(self@) && i == first_identity(self@),
                None => !has_identity(self@),
            },
    {
        let mut i: usize = 0;
        while i < self.records.len()
            invariant
                0 <= i <= self.records@.len(),
                forall|j: int| 0 <= j < i ==> !is_identity_record(#[trigger] self.records@[j]),
            decreases self.records@.len() - i,
        {
            let rec = &self.records[i];
            if rec.localkey.is_some() && crate::same_text(rec.warehouse_name.as_str(), IDENTITY_RECORD_NAME) {
                proof {
                    assert(is_first_identity(self@, i as int));
                    lemma_first_identity_exists(self@);
                    lemma_first_identity_unique(self@, i as int, first_identity(self@));
                }
                return Some(i);
            }
            i = i + 1;
        }
        None
    }

    /// Appends one row.
    pub fn insert_identity_record(&mut self, rec: IdentityRecord)
        ensures
            final(self)@ == old(self)@.push(rec),
    {
        self.records.push(rec);
    }
}

/// Reads the identity that a stored key text holds.
pub fn identity_from_key(text: &str) -> (r: Result<NodeIdentity, IdentityError>)
    ensures
        identity_result_view(r) == identity_from_key_text(text@),
{
    match decode_base64(text) {
        None => Err(IdentityError::KeyNotBase64),
        Some(bytes) => match NodeIdentity::from_keypair_bytes(bytes) {
            Some(n) => Ok(n),
            None => Err(IdentityError::KeyNotKeypair),
        },
    }
}

/// The record that anchors a newly generated identity.
pub fn new_identity_record(identity: &NodeIdentity) -> (r: IdentityRecord)
    ensures
        is_new_identity_record(r, identity@.0),
{
    IdentityRecord {
        localkey: Some(encode_base64(identity.keypair_bytes())),
        warehouse_name: IDENTITY_RECORD_NAME.to_owned(),
        location: DEFAULT_LOCATION.to_owned(),
        capacity: Some(DEFAULT_CAPACITY),
    }
}

/// Reads the identity anchored in the store: `None` when no record carries
/// one, else what the first such record's key yields.
pub fn get_warehouse_id(store: &IdentityStore) -> (r: Option<Result<NodeIdentity, IdentityError>>)
    ensures
        match r {
            None => !has_identity(store@),
            Some(res) => has_identity(store@) && identity_result_view(res)
                == identity_from_key_text(store@[first_identity(store@)].localkey->0@),
        },
{
    match store.find_identity_record() {
        Some(i) => {
            proof {
                lemma_first_identity_exists(store@);
            }
            let rec = &store.records[i];
            match &rec.localkey {
                Some(text) => Some(identity_from_key(text.as_str())),
                None => {
                    proof {
                        assert(false);
                    }
                    None
                },
            }
        },
        None => None,
    }
}

/// Generates a fresh identity and appends the record that anchors it.
pub fn generate_and_insert_new_local_key(store: &mut IdentityStore) -> (r: NodeIdentity)
    ensures
        r.wf(),
        final(store)@.len() == old(store)@.len() + 1,
        final(store)@.drop_last() == old(store)@,
        is_new_identity_record(final(store)@.last(), r@.0),
{
    let identity = NodeIdentity::generate();
    let rec = new_identity_record(&identity);
    store.insert_identity_record(rec);
    proof {
        assert(final(store)@.drop_last() =~= old(store)@);
    }
    identity
}

/// Loads the node's identity from the store, or, where the store holds none,
/// generates one and appends the record that anchors it. An identity record
/// whose key cannot be read is reported, never replaced.
pub fn load_or_create(store: &mut IdentityStore) -> (r: Result<NodeIdentity, IdentityError>)
    ensures
        load_or_create_outcome(old(store)@, final(store)@, identity_result_view(r)),
        r matches Ok(n) ==> n.wf(),
{
    match get_warehouse_id(store) {
        Some(loaded) => loaded,
        None => Ok(generate_and_insert_new_local_key(store)),
    }
}

/// Loading or creating the identity a second time, on the store that the
/// first call left, yields the same identity and writes nothing.
pub proof fn lemma_load_or_create_idempotent(
    s0: Seq<IdentityRecord>,
    s1: Seq<IdentityRecord>,
    id: (Seq<u8>, Seq<char>),
    s2: Seq<IdentityRecord>,
    r2: Result<(Seq<u8>, Seq<char>), IdentityError>,
)
    requires
        load_or_create_outcome(s0, s1, Ok(id)),
        load_or_create_outcome(s1, s2, r2),
    ensures
        s2 == s1,
        r2 == Ok::<(Seq<u8>, Seq<char>), IdentityError>(id),
{
    if !has_identity(s0) {
        let n = s0.len() as int;
        assert(s1[n] == s1.last());
        assert forall|j: int| 0 <= j < n implies !is_identity_record(#[trigger] s1[j]) by {
            assert(s1[j] == s1.drop_last()[j]);
        }
        assert(is_first_identity(s1, n));
        assert(has_identity(s1));
        lemma_first_identity_exists(s1);
        lemma_first_identity_unique(s1, n, first_identity(s1));
    }
}

} // verus!
