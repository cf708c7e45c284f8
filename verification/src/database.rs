//! Record store: users, documents, grants and the append-only access log.
//!
//! The store mirrors the relational shape the backend persists: four tables
//! with unique identities drawn from one counter, a unique username and a
//! unique public key per user, and no constraint at all on grants — callers
//! may record duplicates, and authorization is a pure existence check over
//! them. Every query the backend runs is a verified function here.

use crate::errors::StorageError;
use crate::models::{Process, ProcessAccess, ProcessAccessWithDetails, ProcessShare, User};
use vstd::prelude::*;

verus! {

/// The store: one growable table per record kind and the identity counter.
pub struct Db {
    pub users: Vec<User>,
    pub processes: Vec<Process>,
    pub shares: Vec<ProcessShare>,
    pub accesses: Vec<ProcessAccess>,
    pub next_id: u64,
}

/// Some user carries this username.
pub open spec fn has_user_named(users: Seq<User>, username: Seq<char>) -> bool {
    exists|i: int| 0 <= i < users.len() && users[i].username@ == username
}

/// Some user carries this public key.
pub open spec fn has_user_with_key(users: Seq<User>, public_key: Seq<char>) -> bool {
    exists|i: int| 0 <= i < users.len() && users[i].stellar_public_key@ == public_key
}

/// Some user carries this identity.
pub open spec fn has_user_id(users: Seq<User>, id: u64) -> bool {
    exists|i: int| 0 <= i < users.len() && users[i].id == id
}

/// Some document carries this identity.
pub open spec fn has_process(processes: Seq<Process>, id: u64) -> bool {
    exists|i: int| 0 <= i < processes.len() && processes[i].id == id
}

/// The user carrying this username; meaningful under `has_user_named`.
pub open spec fn user_by_name(users: Seq<User>, username: Seq<char>) -> User {
    users[choose|i: int| 0 <= i < users.len() && users[i].username@ == username]
}

/// The user carrying this identity; meaningful under `has_user_id`.
pub open spec fn user_by_id(users: Seq<User>, id: u64) -> User {
    users[choose|i: int| 0 <= i < users.len() && users[i].id == id]
}

/// The document carrying this identity; meaningful under `has_process`.
pub open spec fn process_by_id(processes: Seq<Process>, id: u64) -> Process {
    processes[choose|i: int| 0 <= i < processes.len() && processes[i].id == id]
}

/// Authorization is existence of a grant: at least one recorded grant names
/// exactly this document and exactly this grantee key.
pub open spec fn share_exists(
    shares: Seq<ProcessShare>,
    process_id: u64,
    supplier_public_key: Seq<char>,
) -> bool {
    exists|i: int|
        0 <= i < shares.len() && shares[i].process_id == process_id
            && shares[i].supplier_public_key@ == supplier_public_key
}

impl Db {
    /// Well-formedness the constructor establishes and every operation
    /// preserves: identities are unique and below the counter, usernames and
    /// public keys are unique. Grants carry no uniqueness on purpose.
    pub open spec fn wf(self) -> bool {
        &&& forall|i: int, j: int|
            0 <= i < j < self.users@.len() ==> self.users@[i].id != self.users@[j].id
        &&& forall|i: int, j: int|
            0 <= i < j < self.users@.len() ==> self.users@[i].username@ != self.users@[j].username@
        &&& forall|i: int, j: int|
            0 <= i < j < self.users@.len() ==> self.users@[i].stellar_public_key@
                != self.users@[j].stellar_public_key@
        &&& forall|i: int, j: int|
            0 <= i < j < self.processes@.len() ==> self.processes@[i].id != self.processes@[j].id
        &&& forall|i: int| 0 <= i < self.users@.len() ==> self.users@[i].id < self.next_id
        &&& forall|i: int| 0 <= i < self.processes@.len() ==> self.processes@[i].id < self.next_id
        &&& forall|i: int| 0 <= i < self.shares@.len() ==> self.shares@[i].id < self.next_id
        &&& forall|i: int| 0 <= i < self.accesses@.len() ==> self.accesses@[i].id < self.next_id
    }

    /// An empty store.
    pub fn new() -> (db: Db)
        ensures
            db.wf(),
            db.users@ == Seq::<User>::empty(),
            db.processes@ == Seq::<Process>::empty(),
            db.shares@ == Seq::<ProcessShare>::empty(),
            db.accesses@ == Seq::<ProcessAccess>::empty(),
            db.next_id == 1,
    {
        Db {
            users: Vec::new(),
            processes: Vec::new(),
            shares: Vec::new(),
            accesses: Vec::new(),
            next_id: 1,
        }
    }
}

/// Persists a new user. Fails like the table's constraints: a reused
/// username or public key violates uniqueness, an unknown role violates the
/// column check; otherwise the user is appended and answered back.
pub fn create_user(
    db: &mut Db,
    username: &str,
    stellar_public_key: &str,
    stellar_secret_key: &str,
    user_type: &str,
    now: i64,
) -> (r: Result<User, StorageError>)
    requires
        old(db).wf(),
        old(db).next_id < u64::MAX,
    ensures
        final(db).wf(),
        final(db).processes@ == old(db).processes@,
        final(db).shares@ == old(db).shares@,
        final(db).accesses@ == old(db).accesses@,
        r is Ok <==> (user_type@ == "client"@ || user_type@ == "supplier"@) && !has_user_named(
            old(db).users@,
            username@,
        ) && !has_user_with_key(old(db).users@, stellar_public_key@),
        match r {
            Ok(u) => {
                &&& u.id == old(db).next_id
                &&& u.username@ == username@
                &&& u.stellar_public_key@ == stellar_public_key@
                &&& u.stellar_secret_key@ == stellar_secret_key@
                &&& u.user_type@ == user_type@
                &&& u.created_at == now
                &&& final(db).users@ == old(db).users@.push(u)
                &&& final(db).next_id == old(db).next_id + 1
            },
            Err(e) => {
                &&& final(db).users@ == old(db).users@
                &&& final(db).next_id == old(db).next_id
                &&& if !(user_type@ == "client"@ || user_type@ == "supplier"@) {
                    e == StorageError::CheckViolation
                } else {
                    e == StorageError::UniqueViolation
                }
            },
        },
{
    let ut = String::from_str(user_type);
    if !(ut == String::from_str("client") || ut == String::from_str("supplier")) {
        return Err(StorageError::CheckViolation);
    }
    let uname = String::from_str(username);
    let pk = String::from_str(stellar_public_key);
    let mut i: usize = 0;
    while i < db.users.len()
        invariant
            *db == *old(db),
            db.wf(),
            db.next_id < u64::MAX,
            i <= db.users@.len(),
            uname@ == username@,
            pk@ == stellar_public_key@,
            ut@ == user_type@,
            user_type@ == "client"@ || user_type@ == "supplier"@,
            forall|j: int| 0 <= j < i ==> db.users@[j].username@ != username@,
            forall|j: int| 0 <= j < i ==> db.users@[j].stellar_public_key@ != stellar_public_key@,
        decreases db.users@.len() - i,
    {
        if db.users[i].username == uname || db.users[i].stellar_public_key == pk {
            return Err(StorageError::UniqueViolation);
        }
        i += 1;
    }
    let user = User {
        id: db.next_id,
        username: uname,
        stellar_public_key: pk,
        stellar_secret_key: String::from_str(stellar_secret_key),
        user_type: ut,
        created_at: now,
    };
    let answered = user.clone();
    db.users.push(user);
    db.next_id = db.next_id + 1;
    Ok(answered)
}

/// Answers some user carrying this username, or nothing where none does.
pub fn find_user_by_username(db: &Db, username: &str) -> (r: Option<User>)
    requires
        db.wf(),
    ensures
        r is Some <==> has_user_named(db.users@, username@),
        match r {
            Some(u) => u == user_by_name(db.users@, username@) && u.username@ == username@,
            None => true,
        },
{
    let uname = String::from_str(username);
    let mut i: usize = 0;
    while i < db.users.len()
        invariant
            db.wf(),
            i <= db.users@.len(),
            uname@ == username@,
            forall|j: int| 0 <= j < i ==> db.users@[j].username@ != username@,
        decreases db.users@.len() - i,
    {
        if db.users[i].username == uname {
            let u = db.users[i].clone();
            proof {
                let k = choose|k: int|
                    0 <= k < db.users@.len() && db.users@[k].username@ == username@;
                assert(db.users@[i as int].username@ == username@);
                assert(k == i as int);
            }
            return Some(u);
        }
        i += 1;
    }
    None
}

/// Answers some user carrying this identity, or nothing where none does.
pub fn find_user_by_id(db: &Db, id: u64) -> (r: Option<User>)
    requires
        db.wf(),
    ensures
        r is Some <==> has_user_id(db.users@, id),
        match r {
            Some(u) => u == user_by_id(db.users@, id) && u.id == id,
            None => true,
        },
{
    let mut i: usize = 0;
    while i < db.users.len()
        invariant
            db.wf(),
            i <= db.users@.len(),
            forall|j: int| 0 <= j < i ==> db.users@[j].id != id,
        decreases db.users@.len() - i,
    {
        if db.users[i].id == id {
            let u = db.users[i].clone();
            proof {
                let k = choose|k: int| 0 <= k < db.users@.len() && db.users@[k].id == id;
                assert(db.users@[i as int].id == id);
                assert(k == i as int);
            }
            return Some(u);
        }
        i += 1;
    }
    None
}

/// Persists a new document with status `active`; the table carries no
/// further constraint, so success is owed.
pub fn create_process(
    db: &mut Db,
    client_id: u64,
    title: &str,
    encrypted_content: &str,
    encryption_key: &str,
    now: i64,
) -> (r: Result<Process, StorageError>)
    requires
        old(db).wf(),
        old(db).next_id < u64::MAX,
    ensures
        final(db).wf(),
        final(db).users@ == old(db).users@,
        final(db).shares@ == old(db).shares@,
        final(db).accesses@ == old(db).accesses@,
        r is Ok,
        match r {
            Ok(p) => {
                &&& p.id == old(db).next_id
                &&& p.client_id == client_id
                &&& p.title@ == title@
                &&& p.encrypted_content@ == encrypted_content@
                &&& p.encryption_key@ == encryption_key@
                &&& p.status@ == "active"@
                &&& p.created_at == now
                &&& final(db).processes@ == old(db).processes@.push(p)
                &&& final(db).next_id == old(db).next_id + 1
            },
            Err(_) => false,
        },
{
    let process = Process {
        id: db.next_id,
        client_id,
        title: String::from_str(title),
        encrypted_content: String::from_str(encrypted_content),
        encryption_key: String::from_str(encryption_key),
        status: String::from_str("active"),
        created_at: now,
    };
    let answered = process.clone();
    db.processes.push(process);
    db.next_id = db.next_id + 1;
    Ok(answered)
}

/// Answers some document carrying this identity, or nothing where none
/// does.
pub fn find_process_by_id(db: &Db, process_id: u64) -> (r: Option<Process>)
    requires
        db.wf(),
    ensures
        r is Some <==> has_process(db.processes@, process_id),
        match r {
            Some(p) => p == process_by_id(db.processes@, process_id) && p.id == process_id,
            None => true,
        },
{
    let mut i: usize = 0;
    while i < db.processes.len()
        invariant
            db.wf(),
            i <= db.processes@.len(),
            forall|j: int| 0 <= j < i ==> db.processes@[j].id != process_id,
        decreases db.processes@.len() - i,
    {
        if db.processes[i].id == process_id {
            let p = db.processes[i].clone();
            proof {
                let k = choose|k: int|
                    0 <= k < db.processes@.len() && db.processes@[k].id == process_id;
                assert(db.processes@[i as int].id == process_id);
                assert(k == i as int);
            }
            return Some(p);
        }
        i += 1;
    }
    None
}

/// This client's documents, most recently persisted first.
pub open spec fn spec_client_processes(processes: Seq<Process>, client_id: u64) -> Seq<Process> {
    processes.filter_map(
        |p: Process|
            if p.client_id == client_id {
                Some(p)
            } else {
                None
            },
    ).reverse()
}

/// Answers this client's documents, most recently persisted first.
pub fn list_processes_by_client(db: &Db, client_id: u64) -> (r: Vec<Process>)
    requires
        db.wf(),
    ensures
        r@ == spec_client_processes(db.processes@, client_id),
{
    let ghost pick = |p: Process|
        if p.client_id == client_id {
            Some(p)
        } else {
            None
        };
    let mut forward: Vec<Process> = Vec::new();
    let mut i: usize = 0;
    while i < db.processes.len()
        invariant
            i <= db.processes@.len(),
            forward@ == db.processes@.take(i as int).filter_map(pick),
            pick == (|p: Process|
                if p.client_id == client_id {
                    Some(p)
                } else {
                    None
                }),
        decreases db.processes@.len() - i,
    {
        proof {
            db.processes@.lemma_filter_map_take_succ(pick, i as int);
        }
        if db.processes[i].client_id == client_id {
            forward.push(db.processes[i].clone());
            proof {
                assert(forward@ =~= db.processes@.take(i + 1).filter_map(pick));
            }
        } else {
            proof {
                assert(forward@ =~= db.processes@.take(i + 1).filter_map(pick));
            }
        }
        i += 1;
    }
    proof {
        assert(db.processes@.take(db.processes@.len() as int) =~= db.processes@);
    }
    reverse_vec(forward)
}

/// Reverses a vector.
fn reverse_vec<T>(input: Vec<T>) -> (r: Vec<T>)
    ensures
        r@ == input@.reverse(),
{
    let ghost full = input@;
    let mut rest = input;
    let mut out: Vec<T> = Vec::new();
    while rest.len() > 0
        invariant
            full == rest@ + out@.reverse(),
        decreases rest@.len(),
    {
        let ghost before_rest = rest@;
        let ghost before_out = out@;
        let x = rest.pop().unwrap();
        out.push(x);
        proof {
            assert(before_rest =~= rest@ + seq![before_rest.last()]);
            assert(out@.reverse() =~= seq![before_rest.last()] + before_out.reverse());
            assert(rest@ + out@.reverse() =~= full);
        }
    }
    proof {
        assert(full == out@.reverse());
        assert(out@ =~= full.reverse());
    }
    out
}

/// Persists a new grant, on purpose without any duplicate check; success is
/// owed.
pub fn create_process_share(
    db: &mut Db,
    process_id: u64,
    supplier_public_key: &str,
    stellar_transaction_hash: &str,
    now: i64,
) -> (r: Result<ProcessShare, StorageError>)
    requires
        old(db).wf(),
        old(db).next_id < u64::MAX,
    ensures
        final(db).wf(),
        final(db).users@ == old(db).users@,
        final(db).processes@ == old(db).processes@,
        final(db).accesses@ == old(db).accesses@,
        r is Ok,
        match r {
            Ok(s) => {
                &&& s.id == old(db).next_id
                &&& s.process_id == process_id
                &&& s.supplier_public_key@ == supplier_public_key@
                &&& s.stellar_transaction_hash@ == stellar_transaction_hash@
                &&& s.shared_at == now
                &&& final(db).shares@ == old(db).shares@.push(s)
                &&& final(db).next_id == old(db).next_id + 1
            },
            Err(_) => false,
        },
{
    let share = ProcessShare {
        id: db.next_id,
        process_id,
        supplier_public_key: String::from_str(supplier_public_key),
        stellar_transaction_hash: String::from_str(stellar_transaction_hash),
        shared_at: now,
    };
    let answered = share.clone();
    db.shares.push(share);
    db.next_id = db.next_id + 1;
    Ok(answered)
}

/// Answers some grant naming exactly this document and grantee key, or
/// nothing where none does: the existence check behind every authorization.
pub fn find_process_share(db: &Db, process_id: u64, supplier_public_key: &str) -> (r: Option<
    ProcessShare,
>)
    requires
        db.wf(),
    ensures
        r is Some <==> share_exists(db.shares@, process_id, supplier_public_key@),
        match r {
            Some(s) => s.process_id == process_id && s.supplier_public_key@
                == supplier_public_key@ && db.shares@.contains(s),
            None => true,
        },
{
    let pk = String::from_str(supplier_public_key);
    let mut i: usize = 0;
    while i < db.shares.len()
        invariant
            i <= db.shares@.len(),
            pk@ == supplier_public_key@,
            forall|j: int|
                0 <= j < i ==> !(db.shares@[j].process_id == process_id
                    && db.shares@[j].supplier_public_key@ == supplier_public_key@),
        decreases db.shares@.len() - i,
    {
        if db.shares[i].process_id == process_id && db.shares[i].supplier_public_key == pk {
            let s = db.shares[i].clone();
            proof {
                assert(db.shares@[i as int] == s);
            }
            return Some(s);
        }
        i += 1;
    }
    None
}

/// Persists a new access record; success is owed.
pub fn create_process_access(db: &mut Db, process_id: u64, supplier_id: u64, now: i64) -> (r:
    Result<ProcessAccess, StorageError>)
    requires
        old(db).wf(),
        old(db).next_id < u64::MAX,
    ensures
        final(db).wf(),
        final(db).users@ == old(db).users@,
        final(db).processes@ == old(db).processes@,
        final(db).shares@ == old(db).shares@,
        r is Ok,
        match r {
            Ok(a) => {
                &&& a.id == old(db).next_id
                &&& a.process_id == process_id
                &&& a.supplier_id == supplier_id
                &&& a.accessed_at == now
                &&& final(db).accesses@ == old(db).accesses@.push(a)
                &&& final(db).next_id == old(db).next_id + 1
            },
            Err(_) => false,
        },
{
    let access = ProcessAccess { id: db.next_id, process_id, supplier_id, accessed_at: now };
    let answered = access.clone();
    db.accesses.push(access);
    db.next_id = db.next_id + 1;
    Ok(answered)
}

/// How an access record joins into a client's notification feed: it appears
/// exactly where its document exists, is owned by the client and its reader
/// exists, carrying the document's title and the reader's handle.
pub open spec fn access_detail(
    processes: Seq<Process>,
    users: Seq<User>,
    a: ProcessAccess,
    client_id: u64,
) -> Option<ProcessAccessWithDetails> {
    if has_process(processes, a.process_id) && process_by_id(processes, a.process_id).client_id
        == client_id && has_user_id(users, a.supplier_id) {
        Some(
            ProcessAccessWithDetails {
                id: a.id,
                process_id: a.process_id,
                supplier_id: a.supplier_id,
                accessed_at: a.accessed_at,
                process_title: process_by_id(processes, a.process_id).title,
                supplier_username: user_by_id(users, a.supplier_id).username,
            },
        )
    } else {
        None
    }
}

/// The client's notification feed: every logged access to one of the
/// client's documents, joined with the title and the reader's handle, most
/// recent first.
pub open spec fn spec_notifications(db: Db, client_id: u64) -> Seq<ProcessAccessWithDetails> {
    db.accesses@.filter_map(
        |a: ProcessAccess| access_detail(db.processes@, db.users@, a, client_id),
    ).reverse()
}

/// Answers the client's notification feed, most recent first.
pub fn list_process_accesses_by_client(db: &Db, client_id: u64) -> (r: Vec<
    ProcessAccessWithDetails,
>)
    requires
        db.wf(),
    ensures
        r@ == spec_notifications(*db, client_id),
{
    let ghost pick = |a: ProcessAccess| access_detail(db.processes@, db.users@, a, client_id);
    let mut forward: Vec<ProcessAccessWithDetails> = Vec::new();
    let mut i: usize = 0;
    while i < db.accesses.len()
        invariant
            db.wf(),
            i <= db.accesses@.len(),
            forward@ == db.accesses@.take(i as int).filter_map(pick),
            pick == (|a: ProcessAccess| access_detail(db.processes@, db.users@, a, client_id)),
        decreases db.accesses@.len() - i,
    {
        proof {
            db.accesses@.lemma_filter_map_take_succ(pick, i as int);
        }
        let a_pid = db.accesses[i].process_id;
        let a_sid = db.accesses[i].supplier_id;
        match find_process_by_id(db, a_pid) {
            Some(p) => {
                if p.client_id == client_id {
                    match find_user_by_id(db, a_sid) {
                        Some(u) => {
                            forward.push(
                                ProcessAccessWithDetails {
                                    id: db.accesses[i].id,
                                    process_id: a_pid,
                                    supplier_id: a_sid,
                                    accessed_at: db.accesses[i].accessed_at,
                                    process_title: p.title,
                                    supplier_username: u.username,
                                },
                            );
                        },
                        None => {},
                    }
                }
            },
            None => {},
        }
        proof {
            assert(forward@ =~= db.accesses@.take(i + 1).filter_map(pick));
        }
        i += 1;
    }
    proof {
        assert(db.accesses@.take(db.accesses@.len() as int) =~= db.accesses@);
    }
    reverse_vec(forward)
}

/// Recording a grant authorizes exactly the pair it names: afterwards that
/// pair is authorized, and every other pair keeps the answer it had — so a
/// duplicate grant for an already-authorized pair changes no answer at all.
pub proof fn lemma_grant_existence(
    shares: Seq<ProcessShare>,
    s: ProcessShare,
    process_id: u64,
    supplier_public_key: Seq<char>,
)
    ensures
        share_exists(shares.push(s), process_id, supplier_public_key) <==> (share_exists(
            shares,
            process_id,
            supplier_public_key,
        ) || (s.process_id == process_id && s.supplier_public_key@ == supplier_public_key)),
{
    if share_exists(shares, process_id, supplier_public_key) {
        let i = choose|i: int|
            0 <= i < shares.len() && shares[i].process_id == process_id
                && shares[i].supplier_public_key@ == supplier_public_key;
        assert(shares.push(s)[i] == shares[i]);
    }
    if s.process_id == process_id && s.supplier_public_key@ == supplier_public_key {
        assert(shares.push(s)[shares.len() as int] == s);
    }
    if share_exists(shares.push(s), process_id, supplier_public_key) {
        let i = choose|i: int|
            0 <= i < shares.push(s).len() && shares.push(s)[i].process_id == process_id
                && shares.push(s)[i].supplier_public_key@ == supplier_public_key;
        if i < shares.len() {
            assert(shares[i] == shares.push(s)[i]);
        }
    }
}

/// Before any grant is recorded, no pair is authorized.
pub proof fn lemma_no_grant_no_authorization(process_id: u64, supplier_public_key: Seq<char>)
    ensures
        !share_exists(Seq::<ProcessShare>::empty(), process_id, supplier_public_key),
{
}

/// How many records of the log name exactly this document and this reader.
pub open spec fn count_accesses_for(s: Seq<ProcessAccess>, process_id: u64, supplier_id: u64) -> nat
    decreases s.len(),
{
    if s.len() == 0 {
        0
    } else {
        count_accesses_for(s.drop_last(), process_id, supplier_id) + if s.last().process_id
            == process_id && s.last().supplier_id == supplier_id {
            1nat
        } else {
            0nat
        }
    }
}

/// How many feed entries name exactly this document and this reader.
pub open spec fn count_notes_for(
    s: Seq<ProcessAccessWithDetails>,
    process_id: u64,
    supplier_id: u64,
) -> nat
    decreases s.len(),
{
    if s.len() == 0 {
        0
    } else {
        count_notes_for(s.drop_last(), process_id, supplier_id) + if s.last().process_id
            == process_id && s.last().supplier_id == supplier_id {
            1nat
        } else {
            0nat
        }
    }
}

proof fn lemma_count_notes_add(
    s1: Seq<ProcessAccessWithDetails>,
    s2: Seq<ProcessAccessWithDetails>,
    process_id: u64,
    supplier_id: u64,
)
    ensures
        count_notes_for(s1 + s2, process_id, supplier_id) == count_notes_for(
            s1,
            process_id,
            supplier_id,
        ) + count_notes_for(s2, process_id, supplier_id),
    decreases s2.len(),
{
    if s2.len() == 0 {
        assert(s1 + s2 =~= s1);
    } else {
        lemma_count_notes_add(s1, s2.drop_last(), process_id, supplier_id);
        assert((s1 + s2).drop_last() =~= s1 + s2.drop_last());
        assert((s1 + s2).last() == s2.last());
    }
}

proof fn lemma_count_notes_reverse(
    s: Seq<ProcessAccessWithDetails>,
    process_id: u64,
    supplier_id: u64,
)
    ensures
        count_notes_for(s.reverse(), process_id, supplier_id) == count_notes_for(
            s,
            process_id,
            supplier_id,
        ),
    decreases s.len(),
{
    if s.len() == 0 {
        assert(s.reverse() =~= s);
    } else {
        let last = s.last();
        let rest = s.drop_last();
        lemma_count_notes_reverse(rest, process_id, supplier_id);
        assert(s.reverse() =~= seq![last] + rest.reverse());
        lemma_count_notes_add(seq![last], rest.reverse(), process_id, supplier_id);
        lemma_count_notes_singleton(last, process_id, supplier_id);
        assert(count_notes_for(s, process_id, supplier_id) == count_notes_for(
            rest,
            process_id,
            supplier_id,
        ) + if last.process_id == process_id && last.supplier_id == supplier_id {
            1nat
        } else {
            0nat
        });
    }
}

proof fn lemma_count_notes_singleton(n: ProcessAccessWithDetails, process_id: u64, supplier_id: u64)
    ensures
        count_notes_for(seq![n], process_id, supplier_id) == if n.process_id == process_id
            && n.supplier_id == supplier_id {
            1nat
        } else {
            0nat
        },
{
    assert(seq![n].drop_last() =~= Seq::<ProcessAccessWithDetails>::empty());
    assert(count_notes_for(Seq::<ProcessAccessWithDetails>::empty(), process_id, supplier_id) == 0);
    assert(seq![n].last() == n);
    assert(count_notes_for(seq![n], process_id, supplier_id) == count_notes_for(
        seq![n].drop_last(),
        process_id,
        supplier_id,
    ) + if n.process_id == process_id && n.supplier_id == supplier_id {
        1nat
    } else {
        0nat
    });
}

proof fn lemma_count_join(
    accesses: Seq<ProcessAccess>,
    processes: Seq<Process>,
    users: Seq<User>,
    client_id: u64,
    process_id: u64,
    supplier_id: u64,
)
    requires
        has_process(processes, process_id),
        process_by_id(processes, process_id).client_id == client_id,
        has_user_id(users, supplier_id),
    ensures
        count_notes_for(
            accesses.filter_map(
                |a: ProcessAccess| access_detail(processes, users, a, client_id),
            ),
            process_id,
            supplier_id,
        ) == count_accesses_for(accesses, process_id, supplier_id),
    decreases accesses.len(),
{
    let pick = |a: ProcessAccess| access_detail(processes, users, a, client_id);
    if accesses.len() == 0 {
        assert(accesses.filter_map(pick) =~= Seq::<ProcessAccessWithDetails>::empty());
    } else {
        lemma_count_join(accesses.drop_last(), processes, users, client_id, process_id, supplier_id);
        let last = accesses.last();
        let rest = accesses.drop_last();
        assert(count_accesses_for(accesses, process_id, supplier_id) == count_accesses_for(
            rest,
            process_id,
            supplier_id,
        ) + if last.process_id == process_id && last.supplier_id == supplier_id {
            1nat
        } else {
            0nat
        });
        match pick(last) {
            Some(n) => {
                assert(accesses.filter_map(pick) == rest.filter_map(pick) + seq![n]);
                lemma_count_notes_add(rest.filter_map(pick), seq![n], process_id, supplier_id);
                lemma_count_notes_singleton(n, process_id, supplier_id);
                assert((n.process_id == process_id && n.supplier_id == supplier_id) == (
                last.process_id == process_id && last.supplier_id == supplier_id));
            },
            None => {
                assert(accesses.filter_map(pick) == rest.filter_map(pick));
                assert(!(last.process_id == process_id && last.supplier_id == supplier_id));
            },
        }
    }
}

/// Every successful read is audited exactly once: the owner's notification
/// feed holds exactly as many entries naming this document and this reader
/// as the access log holds records for the pair.
pub proof fn lemma_audited_exactly_once(db: Db, client_id: u64, process_id: u64, supplier_id: u64)
    requires
        db.wf(),
        has_process(db.processes@, process_id),
        process_by_id(db.processes@, process_id).client_id == client_id,
        has_user_id(db.users@, supplier_id),
    ensures
        count_notes_for(spec_notifications(db, client_id), process_id, supplier_id)
            == count_accesses_for(db.accesses@, process_id, supplier_id),
{
    let pick = |a: ProcessAccess| access_detail(db.processes@, db.users@, a, client_id);
    lemma_count_notes_reverse(db.accesses@.filter_map(pick), process_id, supplier_id);
    lemma_count_join(db.accesses@, db.processes@, db.users@, client_id, process_id, supplier_id);
}

/// Appending one access record for the pair raises its count by exactly
/// one; appending a record for any other pair leaves it unchanged.
pub proof fn lemma_access_count_push(
    s: Seq<ProcessAccess>,
    a: ProcessAccess,
    process_id: u64,
    supplier_id: u64,
)
    ensures
        count_accesses_for(s.push(a), process_id, supplier_id) == count_accesses_for(
            s,
            process_id,
            supplier_id,
        ) + if a.process_id == process_id && a.supplier_id == supplier_id {
            1nat
        } else {
            0nat
        },
{
    assert(s.push(a).drop_last() =~= s);
}

} // verus!
