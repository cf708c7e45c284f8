//! Data model: persisted records, request payloads and response shapes.
//!
//! Identities are plain numbers drawn from the store's counter, and
//! timestamps are plain signed counts handed in by the caller, so that every
//! rule about them is stated over values the verifier can read.

use vstd::prelude::*;

verus! {

/// A registered user: a unique handle, an external key pair and a role tag
/// (`"client"` creates and shares documents, `"supplier"` reads them).
#[derive(Debug)]
pub struct User {
    pub id: u64,
    pub username: String,
    pub stellar_public_key: String,
    pub stellar_secret_key: String,
    pub user_type: String,
    pub created_at: i64,
}

/// A confidential document: a sealed body and the key that seals it, owned
/// by the client that created it.
#[derive(Debug)]
pub struct Process {
    pub id: u64,
    pub client_id: u64,
    pub title: String,
    pub encrypted_content: String,
    pub encryption_key: String,
    pub status: String,
    pub created_at: i64,
}

/// A grant: its existence authorizes exactly one supplier key to read
/// exactly one document, with an external attestation reference attached.
#[derive(Debug)]
pub struct ProcessShare {
    pub id: u64,
    pub process_id: u64,
    pub supplier_public_key: String,
    pub stellar_transaction_hash: String,
    pub shared_at: i64,
}

/// An audit record, appended once per successful read.
#[derive(Debug)]
pub struct ProcessAccess {
    pub id: u64,
    pub process_id: u64,
    pub supplier_id: u64,
    pub accessed_at: i64,
}

/// An audit record joined with the document's title and the reader's
/// handle, as the owner's notification feed shows it.
#[derive(Debug)]
pub struct ProcessAccessWithDetails {
    pub id: u64,
    pub process_id: u64,
    pub supplier_id: u64,
    pub accessed_at: i64,
    pub process_title: String,
    pub supplier_username: String,
}

/// Payload of a registration request.
#[derive(Debug)]
pub struct RegisterRequest {
    pub username: String,
    pub password: String,
    pub user_type: String,
}

/// Payload of a login request.
#[derive(Debug)]
pub struct LoginRequest {
    pub username: String,
    pub password: String,
}

/// Payload of a document-creation request.
#[derive(Debug)]
pub struct CreateProcessRequest {
    pub title: String,
    pub confidential_content: String,
    pub client_username: String,
}

/// Payload of a share request.
#[derive(Debug)]
pub struct ShareProcessRequest {
    pub process_id: u64,
    pub supplier_public_key: String,
    pub client_username: String,
}

/// Payload of an access request.
#[derive(Debug)]
pub struct AccessProcessRequest {
    pub process_id: u64,
    pub supplier_public_key: String,
    pub supplier_username: String,
}

/// A user as answered to callers: the secret key never leaves the system.
#[derive(Debug)]
pub struct UserResponse {
    pub id: u64,
    pub username: String,
    pub stellar_public_key: String,
    pub user_type: String,
    pub created_at: i64,
}

/// A document summary as answered to callers: never the body nor the key.
#[derive(Debug)]
pub struct ProcessResponse {
    pub id: u64,
    pub title: String,
    pub status: String,
    pub created_at: i64,
}

/// A successful read: the title, the recovered plaintext and the moment the
/// read was recorded.
#[derive(Debug)]
pub struct ProcessAccessResponse {
    pub process_id: u64,
    pub title: String,
    pub content: String,
    pub accessed_at: i64,
}

impl Clone for User {
    fn clone(&self) -> (res: Self)
        ensures
            res == *self,
    {
        User {
            id: self.id,
            username: self.username.clone(),
            stellar_public_key: self.stellar_public_key.clone(),
            stellar_secret_key: self.stellar_secret_key.clone(),
            user_type: self.user_type.clone(),
            created_at: self.created_at,
        }
    }
}

impl Clone for Process {
    fn clone(&self) -> (res: Self)
        ensures
            res == *self,
    {
        Process {
            id: self.id,
            client_id: self.client_id,
            title: self.title.clone(),
            encrypted_content: self.encrypted_content.clone(),
            encryption_key: self.encryption_key.clone(),
            status: self.status.clone(),
            created_at: self.created_at,
        }
    }
}

impl Clone for ProcessShare {
    fn clone(&self) -> (res: Self)
        ensures
            res == *self,
    {
        ProcessShare {
            id: self.id,
            process_id: self.process_id,
            supplier_public_key: self.supplier_public_key.clone(),
            stellar_transaction_hash: self.stellar_transaction_hash.clone(),
            shared_at: self.shared_at,
        }
    }
}

impl Clone for ProcessAccess {
    fn clone(&self) -> (res: Self)
        ensures
            res == *self,
    {
        ProcessAccess {
            id: self.id,
            process_id: self.process_id,
            supplier_id: self.supplier_id,
            accessed_at: self.accessed_at,
        }
    }
}

impl Clone for ProcessAccessWithDetails {
    fn clone(&self) -> (res: Self)
        ensures
            res == *self,
    {
        ProcessAccessWithDetails {
            id: self.id,
            process_id: self.process_id,
            supplier_id: self.supplier_id,
            accessed_at: self.accessed_at,
            process_title: self.process_title.clone(),
            supplier_username: self.supplier_username.clone(),
        }
    }
}

/// The view of a user that leaves the system: every field but the secret.
pub open spec fn spec_user_response(user: User) -> UserResponse {
    UserResponse {
        id: user.id,
        username: user.username,
        stellar_public_key: user.stellar_public_key,
        user_type: user.user_type,
        created_at: user.created_at,
    }
}

/// The summary of a document that leaves the system: never the body nor
/// the key.
pub open spec fn spec_process_response(process: Process) -> ProcessResponse {
    ProcessResponse {
        id: process.id,
        title: process.title,
        status: process.status,
        created_at: process.created_at,
    }
}

impl From<User> for UserResponse {
    fn from(user: User) -> (res: UserResponse) {
        UserResponse {
            id: user.id,
            username: user.username,
            stellar_public_key: user.stellar_public_key,
            user_type: user.user_type,
            created_at: user.created_at,
        }
    }
}

impl vstd::std_specs::convert::FromSpecImpl<User> for UserResponse {
    open spec fn obeys_from_spec() -> bool {
        true
    }

    open spec fn from_spec(user: User) -> Self {
        spec_user_response(user)
    }
}

impl From<Process> for ProcessResponse {
    fn from(process: Process) -> (res: ProcessResponse) {
        ProcessResponse {
            id: process.id,
            title: process.title,
            status: process.status,
            created_at: process.created_at,
        }
    }
}

impl vstd::std_specs::convert::FromSpecImpl<Process> for ProcessResponse {
    open spec fn obeys_from_spec() -> bool {
        true
    }

    open spec fn from_spec(process: Process) -> Self {
        spec_process_response(process)
    }
}

} // verus!
