use vstd::prelude::*;
use crate::error::ErrorCode;
use crate::state::{pubkey_from_base58, Principal};

verus! {

/// The SHA-256 digest of `data`.
pub uninterp spec fn sha256_of(data: Seq<u8>) -> Seq<u8>;

/// Relies on `solana_sdk::hash::hash`: the SHA-256 digest of the bytes,
/// 32 bytes long.
#[verifier::external_body]
fn sha256(data: &[u8]) -> (r: [u8; 32])
    ensures
        r@ == sha256_of(data@),
{
    solana_sdk::hash::hash(data).to_bytes()
}

/// What parsing `s` as a JSON array of bytes yields, if it is one.
pub uninterp spec fn json_byte_array(s: Seq<char>) -> Option<Seq<u8>>;

/// Relies on `serde_json::from_str::<Vec<u8>>`: the bytes of a JSON array of
/// integers from 0 to 255, or nothing for any other text.
#[verifier::external_body]
fn parse_json_bytes(s: &str) -> (r: Option<Vec<u8>>)
    ensures
        match r {
            Some(v) => json_byte_array(s@) == Some(v@),
            None => json_byte_array(s@).is_none(),
        },
{
    serde_json::from_str::<Vec<u8>>(s).ok()
}

/// An ed25519 keypair as a keypair file stores it: 64 bytes, the secret half
/// then the public half. The halves are not checked against each other.
pub struct Keypair {
    bytes: Vec<u8>,
}

impl View for Keypair {
    type V = Seq<u8>;

    closed spec fn view(&self) -> Seq<u8> {
        self.bytes@
    }
}

impl Keypair {
    /// The keypair made of `bytes`; refused unless there are 64 of them.
    pub fn from_bytes(bytes: Vec<u8>) -> (r: Result<Keypair, ErrorCode>)
        ensures
            match r {
                Ok(k) => bytes@.len() == 64 && k@ == bytes@,
                Err(e) => bytes@.len() != 64 && e == ErrorCode::InvalidKeypair,
            },
    {
        if bytes.len() == 64 {
            Ok(Keypair { bytes })
        } else {
            Err(ErrorCode::InvalidKeypair)
        }
    }

    /// The keypair written in `json`, the content of a keypair file.
    pub fn from_json(json: &str) -> (r: Result<Keypair, ErrorCode>)
        ensures
            match json_byte_array(json@) {
                Some(b) => if b.len() == 64 {
                    r is Ok && r->Ok_0@ == b
                } else {
                    r == Err::<Keypair, ErrorCode>(ErrorCode::InvalidKeypair)
                },
                None => r == Err::<Keypair, ErrorCode>(ErrorCode::InvalidKeypair),
            },
    {
        match parse_json_bytes(json) {
            Some(bytes) => Keypair::from_bytes(bytes),
            None => Err(ErrorCode::InvalidKeypair),
        }
    }

    /// The public key: the last 32 bytes.
    pub fn pubkey(&self) -> (r: Principal)
        requires
            self@.len() == 64,
        ensures
            r.key@ == self@.subrange(32, 64),
    {
        let mut key: [u8; 32] = [0u8; 32];
        let mut i: usize = 0;
        while i < 32
            invariant
                0 <= i <= 32,
                self.bytes@.len() == 64,
                forall|j: int| 0 <= j < i ==> key[j] == self.bytes@[32 + j],
            decreases 32 - i,
        {
            key[i] = self.bytes[32 + i];
            i = i + 1;
        }
        assert(key@ =~= self.bytes@.subrange(32, 64));
        Principal { key }
    }
}

/// Where the on-chain programme lives and who pays for its transactions.
pub struct AnchorClient {
    pub rpc_url: String,
    pub program_id: Principal,
    pub payer: Principal,
    pub payer_keypair: Keypair,
}

impl AnchorClient {
    /// A client for the programme whose id is written `program_id` in base58,
    /// reached at `rpc_url`, paid for by the keypair written in
    /// `payer_keypair_json`, the content of the payer's keypair file.
    /// Refuses an id that is not a base58 key, then a keypair that is not a
    /// JSON array of 64 bytes.
    pub fn new(rpc_url: &str, program_id: &str, payer_keypair_json: &str) -> (r: Result<AnchorClient, ErrorCode>)
        ensures
            match r {
                Ok(c) => {
                    &&& pubkey_from_base58(program_id@) == Some(c.program_id.key@)
                    &&& json_byte_array(payer_keypair_json@) == Some(c.payer_keypair@)
                    &&& c.payer_keypair@.len() == 64
                    &&& c.payer.key@ == c.payer_keypair@.subrange(32, 64)
                    &&& c.rpc_url@ == rpc_url@
                },
                Err(e) => if pubkey_from_base58(program_id@).is_none() {
                    e == ErrorCode::InvalidPubkey
                } else {
                    &&& e == ErrorCode::InvalidKeypair
                    &&& match json_byte_array(payer_keypair_json@) {
                        Some(b) => b.len() != 64,
                        None => true,
                    }
                },
            },
    {
        let id = match Principal::from_base58(program_id) {
            Some(id) => id,
            None => return Err(ErrorCode::InvalidPubkey),
        };
        let payer_keypair = Keypair::from_json(payer_keypair_json)?;
        let payer = payer_keypair.pubkey();
        Ok(AnchorClient { rpc_url: rpc_url.to_owned(), program_id: id, payer, payer_keypair })
    }
}

/// Client of the Squads multisig service.
pub struct SquadsClient {}

impl SquadsClient {
    pub fn new() -> (r: SquadsClient) {
        SquadsClient {  }
    }
}

/// Builds and fingerprints programme binaries.
pub struct ProgramBuilder {}

impl ProgramBuilder {
    pub fn new() -> (r: ProgramBuilder) {
        ProgramBuilder {  }
    }

    /// The SHA-256 digest of a programme binary, for checking that the binary
    /// installed is the one approved.
    pub fn compute_hash(&self, program_data: &[u8]) -> (r: [u8; 32])
        ensures
            r@ == sha256_of(program_data@),
    {
        sha256(program_data)
    }
}

} // verus!
