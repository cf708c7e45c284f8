//! Mock ledger client: key pairs and transaction references that merely
//! look like the real ledger's, for running the backend without a network.
//!
//! Key generation and transaction identifiers draw randomness, so nothing
//! is promised of their exact value — only the shape every outcome has: a
//! 56-character key starting with its role letter, and a transaction
//! reference carrying the mock prefix.

use rand::Rng;
use vstd::prelude::*;
use vstd::string::{StrSliceExecFns, StringExecFns};

verus! {

/// Failure of the ledger collaborator; the mock never raises it.
#[derive(Clone, Copy, Debug, PartialEq, Eq, Structural)]
pub enum StellarError {
    Unavailable,
}

/// A generated mock key pair.
#[derive(Debug)]
pub struct StellarKeypair {
    pub public_key: String,
    pub secret_key: String,
}

/// The mock ledger client: it answers every call locally.
pub struct StellarClient {
    horizon_url: String,
    client: reqwest::Client,
}

#[verifier::external_type_specification]
#[verifier::external_body]
pub struct ExReqwestClient(reqwest::Client);

/// Relies on `reqwest::Client::new` for the HTTP handle the client carries;
/// the mock never sends through it.
#[verifier::external_body]
fn new_http_client() -> reqwest::Client {
    reqwest::Client::new()
}

/// Relies on rand's `thread_rng().gen_range`: a uniform index below the
/// bound.
#[verifier::external_body]
fn random_index(bound: usize) -> (r: usize)
    requires
        bound > 0,
    ensures
        r < bound,
{
    rand::thread_rng().gen_range(0..bound)
}

/// Relies on uuid's `Uuid::new_v4`: sixteen characters of a fresh random
/// identifier, hyphens removed.
#[verifier::external_body]
fn fresh_token() -> (r: String)
    ensures
        r@.len() == 16,
{
    uuid::Uuid::new_v4().to_string().replace('-', "")[..16].to_string()
}

/// Draws 55 random characters from the ledger's key alphabet.
fn random_base32_suffix() -> (r: String)
    ensures
        r@.len() == 55,
{
    let alphabet = "ABCDEFGHIJKLMNOPQRSTUVWXYZ234567";
    proof {
        reveal_strlit("ABCDEFGHIJKLMNOPQRSTUVWXYZ234567");
    }
    let mut s = String::new();
    let mut k: usize = 0;
    while k < 55
        invariant
            s@.len() == k,
            k <= 55,
            alphabet@.len() == 32,
        decreases 55 - k,
    {
        let idx = random_index(32);
        let piece = alphabet.substring_char(idx, idx + 1);
        s.append(piece);
        k += 1;
    }
    s
}

impl StellarClient {
    /// A client pointed at the test network's address.
    pub fn new() -> (r: StellarClient) {
        StellarClient {
            horizon_url: String::from_str("https://horizon-testnet.stellar.org"),
            client: new_http_client(),
        }
    }

    /// Generates a mock key pair shaped like the ledger's: 56 characters,
    /// the public key starting with `G`, the secret with `S`.
    pub fn create_account(&self) -> (r: Result<StellarKeypair, StellarError>)
        ensures
            r is Ok,
            r.unwrap().public_key@.len() == 56,
            r.unwrap().public_key@[0] == 'G',
            r.unwrap().secret_key@.len() == 56,
            r.unwrap().secret_key@[0] == 'S',
    {
        let public_key = self.generate_mock_public_key();
        let secret_key = self.generate_mock_secret_key();
        Ok(StellarKeypair { public_key, secret_key })
    }

    fn generate_mock_public_key(&self) -> (r: String)
        ensures
            r@.len() == 56,
            r@[0] == 'G',
    {
        let mut s = String::from_str("G");
        proof {
            reveal_strlit("G");
        }
        let suffix = random_base32_suffix();
        s.append(suffix.as_str());
        s
    }

    fn generate_mock_secret_key(&self) -> (r: String)
        ensures
            r@.len() == 56,
            r@[0] == 'S',
    {
        let mut s = String::from_str("S");
        proof {
            reveal_strlit("S");
        }
        let suffix = random_base32_suffix();
        s.append(suffix.as_str());
        s
    }

    /// Answers a mock transaction reference: the mock prefix followed by a
    /// fresh random token.
    pub fn send_access_transaction(
        &self,
        _from_secret: &str,
        _to_public: &str,
        _process_id: &str,
    ) -> (r: Result<String, StellarError>)
        ensures
            r is Ok,
            r.unwrap()@.len() == 24,
            r.unwrap()@.subrange(0, 8) == "mock_tx_"@,
    {
        let token = fresh_token();
        let s = String::from_str("mock_tx_").concat(token.as_str());
        proof {
            reveal_strlit("mock_tx_");
            assert(s@.subrange(0, 8) =~= "mock_tx_"@);
        }
        Ok(s)
    }

    /// The mock always answers that access is attested.
    pub fn verify_access_transaction(
        &self,
        _from_public: &str,
        _to_public: &str,
        _process_id: &str,
    ) -> (r: Result<bool, StellarError>)
        ensures
            r == Ok::<bool, StellarError>(true),
    {
        Ok(true)
    }

    /// A key in the ledger's public shape: 56 characters starting with `G`.
    pub fn validate_stellar_public_key(&self, public_key: &str) -> (r: bool)
        ensures
            r == (public_key@.len() == 56 && public_key@[0] == 'G'),
    {
        if public_key.unicode_len() != 56 {
            return false;
        }
        public_key.get_char(0) == 'G'
    }

    /// A key in the ledger's secret shape: 56 characters starting with `S`.
    pub fn validate_stellar_secret_key(&self, secret_key: &str) -> (r: bool)
        ensures
            r == (secret_key@.len() == 56 && secret_key@[0] == 'S'),
    {
        if secret_key.unicode_len() != 56 {
            return false;
        }
        secret_key.get_char(0) == 'S'
    }

    /// Answers a fixed page of mock transaction references.
    pub fn get_account_transactions(&self, _account_id: &str) -> (r: Result<
        Vec<String>,
        StellarError,
    >)
        ensures
            r is Ok,
            r.unwrap()@.len() == 3,
            r.unwrap()@[0]@ == "mock_tx_abc123"@,
            r.unwrap()@[1]@ == "mock_tx_def456"@,
            r.unwrap()@[2]@ == "mock_tx_ghi789"@,
    {
        let mut transactions: Vec<String> = Vec::new();
        transactions.push(String::from_str("mock_tx_abc123"));
        transactions.push(String::from_str("mock_tx_def456"));
        transactions.push(String::from_str("mock_tx_ghi789"));
        Ok(transactions)
    }
}

} // verus!
