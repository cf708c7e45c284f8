use nda_backend::stellar_real::{
    any_transaction_contains_process, str_contains, transaction_contains_process,
    TransactionRecord,
};

fn record(memo: Option<&str>) -> TransactionRecord {
    TransactionRecord {
        id: "tx-id".to_string(),
        hash: "tx-hash".to_string(),
        ledger: 7,
        created_at: "2024-01-01T00:00:00Z".to_string(),
        source_account: "GSOURCE".to_string(),
        memo: memo.map(|m| m.to_string()),
        memo_type: memo.map(|_| "text".to_string()),
        successful: true,
    }
}

#[test]
fn test_str_contains() {
    assert!(str_contains("NDA_SHARE:process_123", "process_123"));
    assert!(str_contains("abc", ""));
    assert!(str_contains("abc", "abc"));
    assert!(!str_contains("ab", "abc"));
    assert!(!str_contains("NDA_SHARE:process_12", "process_123"));
    assert!(str_contains("ababc", "abc"));
    assert!(!str_contains("ABC", "abc"));
}

#[test]
fn test_transaction_contains_process() {
    assert!(transaction_contains_process(
        &record(Some("NDA_SHARE:process_123")),
        "process_123"
    ));
    assert!(!transaction_contains_process(
        &record(Some("NDA_SHARE:process_999")),
        "process_123"
    ));
    assert!(!transaction_contains_process(&record(None), "process_123"));
}

#[test]
fn test_any_transaction_contains_process() {
    let records = vec![
        record(None),
        record(Some("unrelated memo")),
        record(Some("NDA_SHARE:process_123")),
    ];
    assert!(any_transaction_contains_process(&records, "process_123"));
    assert!(!any_transaction_contains_process(&records, "process_456"));
    assert!(!any_transaction_contains_process(&Vec::new(), "process_123"));
}
