//! Request orchestration: the verified decision core behind each endpoint.
//!
//! Every handler takes the store and the request's plain values, applies
//! the authorization and cipher rules, and answers either the response or
//! exactly one coarse status; what each outcome did to the store is pinned
//! down. The access path is the heart: look the document and the reader up,
//! demand a grant, open the sealed body, and append exactly one audit
//! record — in that order, so a forbidden read decrypts nothing and a
//! failed decryption audits nothing.

use crate::crypto::{
    encrypt_content, generate_key, spec_decrypt, try_decrypt_content, utf8_of, valid_key,
    CryptoErrorKind, MAX_PLAINTEXT_LEN,
};
use crate::database::{
    create_process_access, create_process_share, create_user, find_process_by_id,
    find_process_share, find_user_by_username, has_process, has_user_named, has_user_with_key,
    list_process_accesses_by_client, list_processes_by_client, process_by_id, share_exists,
    spec_client_processes, spec_notifications, user_by_name, Db,
};
use crate::errors::Status;
use crate::models::{
    spec_process_response, spec_user_response, AccessProcessRequest, CreateProcessRequest,
    LoginRequest, Process, ProcessAccess, ProcessAccessResponse, ProcessAccessWithDetails,
    ProcessResponse, ProcessShare, RegisterRequest, ShareProcessRequest, UserResponse,
};
use crate::stellar_real::StellarAccount;
use vstd::prelude::*;

verus! {

/// Query parameters of the listing endpoints.
pub struct ListProcessesQuery {
    pub client_username: Option<String>,
}

/// Liveness probe.
pub fn health_check() -> (r: &'static str)
    ensures
        r@ == "OK"@,
{
    "OK"
}

/// Registers a user under a freshly created ledger account. The handle must
/// be free, else the registration conflicts; the stored keys and role are
/// exactly those handed in; the answer never carries the secret key.
pub fn register_user(db: &mut Db, req: &RegisterRequest, account: StellarAccount, now: i64) -> (r:
    Result<UserResponse, Status>)
    requires
        old(db).wf(),
        old(db).next_id < u64::MAX,
    ensures
        final(db).wf(),
        final(db).processes@ == old(db).processes@,
        final(db).shares@ == old(db).shares@,
        final(db).accesses@ == old(db).accesses@,
        r is Ok <==> !has_user_named(old(db).users@, req.username@) && !has_user_with_key(
            old(db).users@,
            account.public_key@,
        ) && (req.user_type@ == "client"@ || req.user_type@ == "supplier"@),
        match r {
            Ok(resp) => {
                &&& final(db).users@.len() == old(db).users@.len() + 1
                &&& final(db).users@ == old(db).users@.push(final(db).users@.last())
                &&& {
                    let u = final(db).users@.last();
                    &&& u.id == old(db).next_id
                    &&& u.username@ == req.username@
                    &&& u.stellar_public_key@ == account.public_key@
                    &&& u.stellar_secret_key@ == account.secret_key@
                    &&& u.user_type@ == req.user_type@
                    &&& u.created_at == now
                    &&& resp == spec_user_response(u)
                }
                &&& final(db).next_id == old(db).next_id + 1
            },
            Err(st) => {
                &&& final(db).users@ == old(db).users@
                &&& final(db).next_id == old(db).next_id
                &&& if has_user_named(old(db).users@, req.username@) {
                    st == Status::Conflict
                } else {
                    st == Status::InternalError
                }
            },
        },
{
    if find_user_by_username(db, req.username.as_str()).is_some() {
        return Err(Status::Conflict);
    }
    match create_user(
        db,
        req.username.as_str(),
        account.public_key.as_str(),
        account.secret_key.as_str(),
        req.user_type.as_str(),
        now,
    ) {
        Ok(u) => {
            proof {
                assert(db.users@.last() == u);
            }
            Ok(UserResponse::from(u))
        },
        Err(_) => Err(Status::InternalError),
    }
}

/// Answers the registered user's view for a known handle; an unknown
/// handle is unauthorized. The password check is delegated outside.
pub fn login_user(db: &Db, req: &LoginRequest) -> (r: Result<UserResponse, Status>)
    requires
        db.wf(),
    ensures
        r is Ok <==> has_user_named(db.users@, req.username@),
        match r {
            Ok(resp) => resp == spec_user_response(user_by_name(db.users@, req.username@)),
            Err(st) => st == Status::Unauthorized,
        },
{
    match find_user_by_username(db, req.username.as_str()) {
        Some(u) => Ok(UserResponse::from(u)),
        None => Err(Status::Unauthorized),
    }
}

/// Creates a document for a known owner: a fresh key is drawn, the body is
/// sealed under it, and the document is persisted active. The answer holds
/// the summary only — never the body nor the key — and the stored blob is
/// owed to decrypt under the stored key back to the exact body.
pub fn create_process(db: &mut Db, req: &CreateProcessRequest, now: i64) -> (r: Result<
    ProcessResponse,
    Status,
>)
    requires
        old(db).wf(),
        old(db).next_id < u64::MAX,
    ensures
        final(db).wf(),
        final(db).users@ == old(db).users@,
        final(db).shares@ == old(db).shares@,
        final(db).accesses@ == old(db).accesses@,
        r is Ok <==> has_user_named(old(db).users@, req.client_username@) && utf8_of(
            req.confidential_content@,
        ).len() <= MAX_PLAINTEXT_LEN,
        match r {
            Ok(resp) => {
                &&& final(db).processes@.len() == old(db).processes@.len() + 1
                &&& final(db).processes@ == old(db).processes@.push(final(db).processes@.last())
                &&& {
                    let p = final(db).processes@.last();
                    &&& p.id == old(db).next_id
                    &&& p.client_id == user_by_name(old(db).users@, req.client_username@).id
                    &&& p.title@ == req.title@
                    &&& p.status@ == "active"@
                    &&& p.created_at == now
                    &&& valid_key(p.encryption_key@)
                    &&& spec_decrypt(p.encrypted_content@, p.encryption_key@) == Ok::<
                        Seq<char>,
                        CryptoErrorKind,
                    >(req.confidential_content@)
                    &&& resp == spec_process_response(p)
                }
                &&& final(db).next_id == old(db).next_id + 1
            },
            Err(st) => {
                &&& final(db).processes@ == old(db).processes@
                &&& final(db).next_id == old(db).next_id
                &&& if !has_user_named(old(db).users@, req.client_username@) {
                    st == Status::NotFound
                } else {
                    st == Status::InternalError
                }
            },
        },
{
    let client = match find_user_by_username(db, req.client_username.as_str()) {
        Some(u) => u,
        None => {
            return Err(Status::NotFound);
        },
    };
    let encryption_key = generate_key();
    let encrypted_content = match encrypt_content(
        req.confidential_content.as_str(),
        encryption_key.as_str(),
    ) {
        Ok(c) => c,
        Err(_) => {
            return Err(Status::InternalError);
        },
    };
    match crate::database::create_process(
        db,
        client.id,
        req.title.as_str(),
        encrypted_content.as_str(),
        encryption_key.as_str(),
        now,
    ) {
        Ok(p) => {
            proof {
                assert(db.processes@.last() == p);
            }
            Ok(ProcessResponse::from(p))
        },
        Err(_) => Err(Status::InternalError),
    }
}

/// Shares a known document with a supplier key, under an attestation
/// reference the caller already obtained from the ledger collaborator: the
/// grant is recorded as handed in, with no duplicate check, and from then
/// on the pair is authorized.
pub fn share_process(
    db: &mut Db,
    req: &ShareProcessRequest,
    stellar_transaction_hash: &str,
    now: i64,
) -> (r: Result<ProcessShare, Status>)
    requires
        old(db).wf(),
        old(db).next_id < u64::MAX,
    ensures
        final(db).wf(),
        final(db).users@ == old(db).users@,
        final(db).processes@ == old(db).processes@,
        final(db).accesses@ == old(db).accesses@,
        r is Ok <==> has_process(old(db).processes@, req.process_id) && has_user_named(
            old(db).users@,
            req.client_username@,
        ),
        match r {
            Ok(share) => {
                &&& share.id == old(db).next_id
                &&& share.process_id == req.process_id
                &&& share.supplier_public_key@ == req.supplier_public_key@
                &&& share.stellar_transaction_hash@ == stellar_transaction_hash@
                &&& share.shared_at == now
                &&& final(db).shares@ == old(db).shares@.push(share)
                &&& final(db).next_id == old(db).next_id + 1
                &&& share_exists(final(db).shares@, req.process_id, req.supplier_public_key@)
            },
            Err(st) => {
                &&& final(db).shares@ == old(db).shares@
                &&& final(db).next_id == old(db).next_id
                &&& st == Status::NotFound
            },
        },
{
    if find_process_by_id(db, req.process_id).is_none() {
        return Err(Status::NotFound);
    }
    if find_user_by_username(db, req.client_username.as_str()).is_none() {
        return Err(Status::NotFound);
    }
    match create_process_share(
        db,
        req.process_id,
        req.supplier_public_key.as_str(),
        stellar_transaction_hash,
        now,
    ) {
        Ok(share) => {
            proof {
                assert(db.shares@[db.shares@.len() - 1] == share);
            }
            Ok(share)
        },
        Err(_) => Err(Status::NotFound),
    }
}

/// Serves an authorized read: the document and the reader must exist, a
/// grant must name the document and the reader's key, the sealed body must
/// open — and then, and only then, exactly one audit record is appended.
/// A forbidden read leaves the store untouched, so nothing is decrypted
/// and nothing is audited; a failed decryption is answered as an internal
/// error with no record either.
pub fn access_process(db: &mut Db, req: &AccessProcessRequest, now: i64) -> (r: Result<
    ProcessAccessResponse,
    Status,
>)
    requires
        old(db).wf(),
        old(db).next_id < u64::MAX,
    ensures
        final(db).wf(),
        final(db).users@ == old(db).users@,
        final(db).processes@ == old(db).processes@,
        final(db).shares@ == old(db).shares@,
        r is Ok <==> has_process(old(db).processes@, req.process_id) && has_user_named(
            old(db).users@,
            req.supplier_username@,
        ) && share_exists(
            old(db).shares@,
            req.process_id,
            user_by_name(old(db).users@, req.supplier_username@).stellar_public_key@,
        ) && valid_key(process_by_id(old(db).processes@, req.process_id).encryption_key@)
            && spec_decrypt(
            process_by_id(old(db).processes@, req.process_id).encrypted_content@,
            process_by_id(old(db).processes@, req.process_id).encryption_key@,
        ) is Ok,
        match r {
            Ok(resp) => {
                let p = process_by_id(old(db).processes@, req.process_id);
                let supplier = user_by_name(old(db).users@, req.supplier_username@);
                &&& spec_decrypt(p.encrypted_content@, p.encryption_key@) == Ok::<
                    Seq<char>,
                    CryptoErrorKind,
                >(resp.content@)
                &&& resp.process_id == req.process_id
                &&& resp.title@ == p.title@
                &&& resp.accessed_at == now
                &&& final(db).accesses@ == old(db).accesses@.push(
                    ProcessAccess {
                        id: old(db).next_id,
                        process_id: req.process_id,
                        supplier_id: supplier.id,
                        accessed_at: now,
                    },
                )
                &&& final(db).next_id == old(db).next_id + 1
            },
            Err(st) => {
                &&& final(db).accesses@ == old(db).accesses@
                &&& final(db).next_id == old(db).next_id
                &&& if !has_process(old(db).processes@, req.process_id) || !has_user_named(
                    old(db).users@,
                    req.supplier_username@,
                ) {
                    st == Status::NotFound
                } else if !share_exists(
                    old(db).shares@,
                    req.process_id,
                    user_by_name(old(db).users@, req.supplier_username@).stellar_public_key@,
                ) {
                    st == Status::Forbidden
                } else {
                    st == Status::InternalError
                }
            },
        },
{
    let process = match find_process_by_id(db, req.process_id) {
        Some(p) => p,
        None => {
            return Err(Status::NotFound);
        },
    };
    let supplier = match find_user_by_username(db, req.supplier_username.as_str()) {
        Some(u) => u,
        None => {
            return Err(Status::NotFound);
        },
    };
    if find_process_share(db, req.process_id, supplier.stellar_public_key.as_str()).is_none() {
        return Err(Status::Forbidden);
    }
    let decrypted_content = match try_decrypt_content(
        process.encrypted_content.as_str(),
        process.encryption_key.as_str(),
    ) {
        Ok(c) => c,
        Err(_) => {
            return Err(Status::InternalError);
        },
    };
    match create_process_access(db, req.process_id, supplier.id, now) {
        Ok(_) => {},
        Err(_) => {
            return Err(Status::InternalError);
        },
    }
    Ok(
        ProcessAccessResponse {
            process_id: req.process_id,
            title: process.title,
            content: decrypted_content,
            accessed_at: now,
        },
    )
}

/// Lists a known owner's document summaries, most recent first; asking
/// without a handle is a bad request.
pub fn list_processes(db: &Db, params: &ListProcessesQuery) -> (r: Result<
    Vec<ProcessResponse>,
    Status,
>)
    requires
        db.wf(),
    ensures
        match r {
            Ok(v) => {
                &&& params.client_username is Some
                &&& has_user_named(db.users@, params.client_username.unwrap()@)
                &&& v@ == spec_client_processes(
                    db.processes@,
                    user_by_name(db.users@, params.client_username.unwrap()@).id,
                ).map_values(|p: Process| spec_process_response(p))
            },
            Err(st) => {
                if params.client_username is None {
                    st == Status::BadRequest
                } else {
                    st == Status::NotFound && !has_user_named(
                        db.users@,
                        params.client_username.unwrap()@,
                    )
                }
            },
        },
{
    let client_username = match &params.client_username {
        Some(name) => name,
        None => {
            return Err(Status::BadRequest);
        },
    };
    let client = match find_user_by_username(db, client_username.as_str()) {
        Some(u) => u,
        None => {
            return Err(Status::NotFound);
        },
    };
    let processes = list_processes_by_client(db, client.id);
    let ghost to_response = |p: Process| spec_process_response(p);
    let mut responses: Vec<ProcessResponse> = Vec::new();
    let mut i: usize = 0;
    while i < processes.len()
        invariant
            i <= processes@.len(),
            responses@ == processes@.take(i as int).map_values(to_response),
            to_response == (|p: Process| spec_process_response(p)),
        decreases processes@.len() - i,
    {
        responses.push(ProcessResponse::from(processes[i].clone()));
        proof {
            assert(responses@ =~= processes@.take(i + 1).map_values(to_response));
        }
        i += 1;
    }
    proof {
        assert(processes@.take(processes@.len() as int) =~= processes@);
    }
    Ok(responses)
}

/// Lists a known owner's notification feed — who read which of their
/// documents, and when — most recent first; asking without a handle is a
/// bad request.
pub fn get_notifications(db: &Db, params: &ListProcessesQuery) -> (r: Result<
    Vec<ProcessAccessWithDetails>,
    Status,
>)
    requires
        db.wf(),
    ensures
        match r {
            Ok(v) => {
                &&& params.client_username is Some
                &&& has_user_named(db.users@, params.client_username.unwrap()@)
                &&& v@ == spec_notifications(
                    *db,
                    user_by_name(db.users@, params.client_username.unwrap()@).id,
                )
            },
            Err(st) => {
                if params.client_username is None {
                    st == Status::BadRequest
                } else {
                    st == Status::NotFound && !has_user_named(
                        db.users@,
                        params.client_username.unwrap()@,
                    )
                }
            },
        },
{
    let client_username = match &params.client_username {
        Some(name) => name,
        None => {
            return Err(Status::BadRequest);
        },
    };
    let client = match find_user_by_username(db, client_username.as_str()) {
        Some(u) => u,
        None => {
            return Err(Status::NotFound);
        },
    };
    Ok(list_process_accesses_by_client(db, client.id))
}

} // verus!
