use nda_backend::database::{
    create_process_access, create_process_share, create_user, find_process_by_id,
    find_process_share, find_user_by_username, list_process_accesses_by_client,
    list_processes_by_client, Db,
};
use nda_backend::errors::{Status, StorageError};
use nda_backend::handlers::{
    access_process, create_process, get_notifications, health_check, list_processes, login_user,
    register_user, ListProcessesQuery,
};
use nda_backend::models::{
    AccessProcessRequest, CreateProcessRequest, LoginRequest, RegisterRequest, ShareProcessRequest,
};
use nda_backend::stellar_real::StellarAccount;

fn account(public_key: &str, secret_key: &str) -> StellarAccount {
    StellarAccount {
        public_key: public_key.to_string(),
        secret_key: secret_key.to_string(),
    }
}

fn register(db: &mut Db, username: &str, user_type: &str, public_key: &str, now: i64) -> u64 {
    let req = RegisterRequest {
        username: username.to_string(),
        password: "pw".to_string(),
        user_type: user_type.to_string(),
    };
    register_user(db, &req, account(public_key, &format!("S{public_key}")), now)
        .unwrap()
        .id
}

fn create_doc(db: &mut Db, owner: &str, title: &str, body: &str, now: i64) -> u64 {
    let req = CreateProcessRequest {
        title: title.to_string(),
        confidential_content: body.to_string(),
        client_username: owner.to_string(),
    };
    create_process(db, &req, now).unwrap().id
}

fn share(db: &mut Db, process_id: u64, supplier_public_key: &str, owner: &str, now: i64) {
    let req = ShareProcessRequest {
        process_id,
        supplier_public_key: supplier_public_key.to_string(),
        client_username: owner.to_string(),
    };
    nda_backend::handlers::share_process(db, &req, "attestation_tx_hash", now).unwrap();
}

fn access(db: &mut Db, process_id: u64, supplier: &str, now: i64) -> Result<String, Status> {
    let req = AccessProcessRequest {
        process_id,
        supplier_public_key: "unused-by-the-check".to_string(),
        supplier_username: supplier.to_string(),
    };
    access_process(db, &req, now).map(|resp| resp.content)
}

#[test]
fn test_health_check() {
    assert_eq!(health_check(), "OK");
}

#[test]
fn test_register_and_login() {
    let mut db = Db::new();
    let req = RegisterRequest {
        username: "alice".to_string(),
        password: "pw".to_string(),
        user_type: "client".to_string(),
    };
    let resp = register_user(&mut db, &req, account("GALICE", "SALICE"), 5).unwrap();
    assert_eq!(resp.username, "alice");
    assert_eq!(resp.stellar_public_key, "GALICE");
    assert_eq!(resp.user_type, "client");
    assert_eq!(resp.created_at, 5);

    let login = login_user(&db, &LoginRequest {
        username: "alice".to_string(),
        password: "whatever".to_string(),
    })
    .unwrap();
    assert_eq!(login.id, resp.id);

    let unknown = login_user(&db, &LoginRequest {
        username: "nobody".to_string(),
        password: "pw".to_string(),
    });
    assert_eq!(unknown.unwrap_err(), Status::Unauthorized);
}

#[test]
fn test_register_duplicate_username_conflicts() {
    let mut db = Db::new();
    register(&mut db, "alice", "client", "GALICE", 1);
    let req = RegisterRequest {
        username: "alice".to_string(),
        password: "pw".to_string(),
        user_type: "client".to_string(),
    };
    let err = register_user(&mut db, &req, account("GOTHER", "SOTHER"), 2).unwrap_err();
    assert_eq!(err, Status::Conflict);
}

#[test]
fn test_create_user_constraints() {
    let mut db = Db::new();
    let made = create_user(&mut db, "alice", "GALICE", "SALICE", "client", 1).unwrap();
    assert_eq!(made.user_type, "client");
    let bad_role = create_user(&mut db, "bob", "GBOB", "SBOB", "admin", 2).unwrap_err();
    assert_eq!(bad_role, StorageError::CheckViolation);
    let dup_key = create_user(&mut db, "carol", "GALICE", "SCAROL", "supplier", 3).unwrap_err();
    assert_eq!(dup_key, StorageError::UniqueViolation);
}

#[test]
fn test_end_to_end_share_and_access() {
    let mut db = Db::new();
    register(&mut db, "alice", "client", "GALICE", 1);
    let bob_id = register(&mut db, "bob", "supplier", "GBOB", 2);
    let doc = create_doc(&mut db, "alice", "NDA-1", "secret terms", 3);

    // Before any share: Forbidden, no decryption result, nothing audited.
    assert_eq!(access(&mut db, doc, "bob", 4).unwrap_err(), Status::Forbidden);
    assert_eq!(db.accesses.len(), 0);

    share(&mut db, doc, "GBOB", "alice", 5);

    let content = access(&mut db, doc, "bob", 6).unwrap();
    assert_eq!(content, "secret terms");

    let notes = get_notifications(&db, &ListProcessesQuery {
        client_username: Some("alice".to_string()),
    })
    .unwrap();
    assert_eq!(notes.len(), 1);
    assert_eq!(notes[0].process_id, doc);
    assert_eq!(notes[0].supplier_id, bob_id);
    assert_eq!(notes[0].process_title, "NDA-1");
    assert_eq!(notes[0].supplier_username, "bob");
    assert_eq!(notes[0].accessed_at, 6);
}

#[test]
fn test_access_nonexistent_document_is_not_found() {
    let mut db = Db::new();
    register(&mut db, "bob", "supplier", "GBOB", 1);
    assert_eq!(access(&mut db, 999, "bob", 2).unwrap_err(), Status::NotFound);
    // Grants for other documents change nothing about a missing id.
    register(&mut db, "alice", "client", "GALICE", 3);
    let doc = create_doc(&mut db, "alice", "NDA-1", "body", 4);
    share(&mut db, doc, "GBOB", "alice", 5);
    assert_eq!(access(&mut db, 999, "bob", 6).unwrap_err(), Status::NotFound);
}

#[test]
fn test_access_unknown_supplier_is_not_found() {
    let mut db = Db::new();
    register(&mut db, "alice", "client", "GALICE", 1);
    let doc = create_doc(&mut db, "alice", "NDA-1", "body", 2);
    assert_eq!(access(&mut db, doc, "ghost", 3).unwrap_err(), Status::NotFound);
}

#[test]
fn test_corrupted_ciphertext_gives_internal_error_and_no_audit() {
    let mut db = Db::new();
    register(&mut db, "alice", "client", "GALICE", 1);
    register(&mut db, "bob", "supplier", "GBOB", 2);
    let doc = create_doc(&mut db, "alice", "NDA-1", "secret terms", 3);
    share(&mut db, doc, "GBOB", "alice", 4);

    // Corrupt a single character of the stored blob.
    let blob = db.processes[0].encrypted_content.clone();
    let mut bytes = blob.into_bytes();
    bytes[0] = if bytes[0] == b'A' { b'B' } else { b'A' };
    db.processes[0].encrypted_content = String::from_utf8(bytes).unwrap();

    assert_eq!(access(&mut db, doc, "bob", 5).unwrap_err(), Status::InternalError);
    assert_eq!(db.accesses.len(), 0);
    let notes = get_notifications(&db, &ListProcessesQuery {
        client_username: Some("alice".to_string()),
    })
    .unwrap();
    assert_eq!(notes.len(), 0);
}

#[test]
fn test_authorization_is_existence_based() {
    let mut db = Db::new();
    register(&mut db, "alice", "client", "GALICE", 1);
    let doc = create_doc(&mut db, "alice", "NDA-1", "body", 2);

    // Never before a grant is recorded...
    assert!(find_process_share(&db, doc, "GBOB").is_none());
    create_process_share(&mut db, doc, "GBOB", "tx1", 3).unwrap();
    // ... always after.
    let found = find_process_share(&db, doc, "GBOB").unwrap();
    assert_eq!(found.process_id, doc);
    assert_eq!(found.supplier_public_key, "GBOB");
    // Exact, case-sensitive match only.
    assert!(find_process_share(&db, doc, "gbob").is_none());
    assert!(find_process_share(&db, doc + 1, "GBOB").is_none());
}

#[test]
fn test_duplicate_grants_are_harmless() {
    let mut db = Db::new();
    register(&mut db, "alice", "client", "GALICE", 1);
    register(&mut db, "bob", "supplier", "GBOB", 2);
    let doc = create_doc(&mut db, "alice", "NDA-1", "secret terms", 3);

    share(&mut db, doc, "GBOB", "alice", 4);
    share(&mut db, doc, "GBOB", "alice", 5);
    assert_eq!(db.shares.len(), 2);

    // Authorization answers exactly as with one grant.
    assert!(find_process_share(&db, doc, "GBOB").is_some());
    assert_eq!(access(&mut db, doc, "bob", 6).unwrap(), "secret terms");
}

#[test]
fn test_access_audited_exactly_once_per_read() {
    let mut db = Db::new();
    register(&mut db, "alice", "client", "GALICE", 1);
    let bob_id = register(&mut db, "bob", "supplier", "GBOB", 2);
    let doc = create_doc(&mut db, "alice", "NDA-1", "secret terms", 3);
    share(&mut db, doc, "GBOB", "alice", 4);

    for k in 0..3 {
        access(&mut db, doc, "bob", 10 + k).unwrap();
    }

    let notes = get_notifications(&db, &ListProcessesQuery {
        client_username: Some("alice".to_string()),
    })
    .unwrap();
    let matching: Vec<_> = notes
        .iter()
        .filter(|n| n.process_id == doc && n.supplier_id == bob_id)
        .collect();
    assert_eq!(matching.len(), 3);
    // Most recent first.
    assert_eq!(notes[0].accessed_at, 12);
    assert_eq!(notes[2].accessed_at, 10);
}

#[test]
fn test_list_processes() {
    let mut db = Db::new();
    register(&mut db, "alice", "client", "GALICE", 1);
    register(&mut db, "carl", "client", "GCARL", 2);
    let first = create_doc(&mut db, "alice", "NDA-1", "a", 3);
    let second = create_doc(&mut db, "alice", "NDA-2", "b", 4);
    create_doc(&mut db, "carl", "OTHER", "c", 5);

    let listed = list_processes(&db, &ListProcessesQuery {
        client_username: Some("alice".to_string()),
    })
    .unwrap();
    assert_eq!(listed.len(), 2);
    // Most recently persisted first.
    assert_eq!(listed[0].id, second);
    assert_eq!(listed[0].title, "NDA-2");
    assert_eq!(listed[0].status, "active");
    assert_eq!(listed[1].id, first);

    let bad = list_processes(&db, &ListProcessesQuery { client_username: None });
    assert_eq!(bad.unwrap_err(), Status::BadRequest);
    let missing = list_processes(&db, &ListProcessesQuery {
        client_username: Some("ghost".to_string()),
    });
    assert_eq!(missing.unwrap_err(), Status::NotFound);
}

#[test]
fn test_create_process_for_unknown_owner_is_not_found() {
    let mut db = Db::new();
    let req = CreateProcessRequest {
        title: "NDA-1".to_string(),
        confidential_content: "body".to_string(),
        client_username: "ghost".to_string(),
    };
    assert_eq!(create_process(&mut db, &req, 1).unwrap_err(), Status::NotFound);
    assert!(db.processes.is_empty());
}

#[test]
fn test_stored_document_is_sealed() {
    let mut db = Db::new();
    register(&mut db, "alice", "client", "GALICE", 1);
    create_doc(&mut db, "alice", "NDA-1", "secret terms", 2);
    let stored = find_process_by_id(&db, db.processes[0].id).unwrap();
    assert_ne!(stored.encrypted_content, "secret terms");
    assert!(!stored.encrypted_content.contains("secret terms"));
    assert_eq!(stored.status, "active");
}

#[test]
fn test_query_helpers() {
    let mut db = Db::new();
    register(&mut db, "alice", "client", "GALICE", 1);
    let alice = find_user_by_username(&db, "alice").unwrap();
    assert_eq!(alice.stellar_public_key, "GALICE");
    assert!(find_user_by_username(&db, "Alice").is_none());

    let doc = create_doc(&mut db, "alice", "NDA-1", "body", 2);
    let listed = list_processes_by_client(&db, alice.id);
    assert_eq!(listed.len(), 1);
    assert_eq!(listed[0].id, doc);
    assert!(list_processes_by_client(&db, alice.id + 100).is_empty());

    create_process_access(&mut db, doc, alice.id, 3).unwrap();
    let joined = list_process_accesses_by_client(&db, alice.id);
    assert_eq!(joined.len(), 1);
    assert_eq!(joined[0].supplier_username, "alice");
}
