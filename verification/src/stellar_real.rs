//! Shapes of the external ledger's answers, and the decision read off them.
//!
//! The network client that fills these shapes lives outside the library.
//! What the backend decides from them — whether some returned transaction's
//! memo names a document — is plain text logic and is verified here.

use vstd::prelude::*;
use vstd::string::StrSliceExecFns;

verus! {

/// A ledger key pair: the public identifier and the secret that signs.
#[derive(Debug, Clone)]
pub struct StellarAccount {
    pub public_key: String,
    pub secret_key: String,
}

/// A submitted transaction as the ledger answers it.
#[derive(Debug)]
pub struct TransactionResponse {
    pub hash: String,
    pub successful: bool,
    pub ledger: Option<u64>,
    pub result_xdr: Option<String>,
}

/// An account as the ledger answers it.
#[derive(Debug)]
pub struct AccountResponse {
    pub account_id: String,
    pub sequence: String,
    pub balances: Vec<Balance>,
}

/// One balance line of an account.
#[derive(Debug)]
pub struct Balance {
    pub balance: String,
    pub asset_type: String,
    pub asset_code: Option<String>,
    pub asset_issuer: Option<String>,
}

/// One recorded transaction of an account.
#[derive(Debug)]
pub struct TransactionRecord {
    pub id: String,
    pub hash: String,
    pub ledger: u64,
    pub created_at: String,
    pub source_account: String,
    pub memo: Option<String>,
    pub memo_type: Option<String>,
    pub successful: bool,
}

/// The page of transactions the ledger answers.
#[derive(Debug)]
pub struct TransactionsResponse {
    pub embedded: EmbeddedTransactions,
}

/// The embedded list inside a transactions page.
#[derive(Debug)]
pub struct EmbeddedTransactions {
    pub records: Vec<TransactionRecord>,
}

/// The needle occurs contiguously somewhere in the haystack.
pub open spec fn spec_str_contains(haystack: Seq<char>, needle: Seq<char>) -> bool {
    exists|i: int|
        0 <= i && i + needle.len() <= haystack.len() && #[trigger] haystack.subrange(
            i,
            i + needle.len(),
        ) == needle
}

/// Whether the needle occurs contiguously in the haystack, by characters.
pub fn str_contains(haystack: &str, needle: &str) -> (r: bool)
    ensures
        r == spec_str_contains(haystack@, needle@),
{
    let h_len = haystack.unicode_len();
    let n_len = needle.unicode_len();
    if n_len == 0 {
        proof {
            assert(haystack@.subrange(0, 0 + needle@.len() as int) =~= needle@);
        }
        return true;
    }
    if n_len > h_len {
        return false;
    }
    let mut i: usize = 0;
    while i <= h_len - n_len
        invariant
            h_len == haystack@.len(),
            n_len == needle@.len(),
            1 <= n_len <= h_len,
            i <= h_len - n_len + 1,
            forall|k: int|
                0 <= k < i ==> #[trigger] haystack@.subrange(k, k + needle@.len() as int)
                    != needle@,
        decreases h_len - n_len + 1 - i,
    {
        let mut j: usize = 0;
        let mut matches = true;
        while j < n_len && matches
            invariant
                h_len == haystack@.len(),
                n_len == needle@.len(),
                1 <= n_len <= h_len,
                i <= h_len - n_len,
                j <= n_len,
                matches ==> forall|m: int| 0 <= m < j ==> haystack@[i + m] == needle@[m],
                !matches ==> exists|m: int|
                    0 <= m < needle@.len() && haystack@[i + m] != needle@[m],
            decreases n_len - j + (if matches {
                1int
            } else {
                0int
            }),
        {
            if haystack.get_char(i + j) != needle.get_char(j) {
                matches = false;
            } else {
                j += 1;
            }
        }
        if matches {
            proof {
                assert(haystack@.subrange(i as int, i + n_len) =~= needle@);
            }
            return true;
        }
        proof {
            let m = choose|m: int| 0 <= m < needle@.len() && haystack@[i + m] != needle@[m];
            assert(haystack@.subrange(i as int, i + n_len)[m] == haystack@[i + m]);
            assert(haystack@.subrange(i as int, i + n_len) != needle@);
        }
        i += 1;
    }
    proof {
        if spec_str_contains(haystack@, needle@) {
            let k = choose|k: int|
                0 <= k && k + needle@.len() <= haystack@.len() && #[trigger] haystack@.subrange(
                    k,
                    k + needle@.len(),
                ) == needle@;
            assert(haystack@.subrange(k, k + needle@.len() as int) == needle@);
            assert(k < i);
        }
    }
    false
}

/// Whether this transaction's memo names the document.
pub fn transaction_contains_process(transaction: &TransactionRecord, process_id: &str) -> (r: bool)
    ensures
        r == (transaction.memo is Some && spec_str_contains(
            transaction.memo.unwrap()@,
            process_id@,
        )),
{
    match &transaction.memo {
        Some(memo) => str_contains(memo.as_str(), process_id),
        None => false,
    }
}

/// Some transaction of the page names the document in its memo.
pub open spec fn spec_any_transaction_contains(
    records: Seq<TransactionRecord>,
    process_id: Seq<char>,
) -> bool {
    exists|i: int|
        0 <= i < records.len() && records[i].memo is Some && spec_str_contains(
            records[i].memo.unwrap()@,
            process_id,
        )
}

/// The decision behind a ledger-side access check: whether any returned
/// transaction's memo names the document.
pub fn any_transaction_contains_process(records: &Vec<TransactionRecord>, process_id: &str) -> (r:
    bool)
    ensures
        r == spec_any_transaction_contains(records@, process_id@),
{
    let mut i: usize = 0;
    while i < records.len()
        invariant
            i <= records@.len(),
            forall|j: int|
                0 <= j < i ==> !(records@[j].memo is Some && spec_str_contains(
                    records@[j].memo.unwrap()@,
                    process_id@,
                )),
        decreases records@.len() - i,
    {
        if transaction_contains_process(&records[i], process_id) {
            return true;
        }
        i += 1;
    }
    false
}

} // verus!
