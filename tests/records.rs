use point_transfer::ledger::{transfer_metadata, LedgerStore, PointLedgerDb};
use point_transfer::status::{EventType, TransferStatus};
use point_transfer::text::decimal_text;
use point_transfer::time::Timestamp;
use point_transfer::transfer::TransferDb;
use point_transfer::transfer_store::TransferStore;
use point_transfer::transfer::CreateTransferRequest;
use point_transfer::error::TransferError;

fn row(status: &str, created: &str, completed: Option<&str>) -> TransferDb {
    TransferDb {
        id: 7,
        from_user_id: 1,
        to_user_id: 2,
        amount: 30,
        status: status.to_string(),
        note: Some("n".to_string()),
        idempotency_key: "key".to_string(),
        created_at: created.to_string(),
        updated_at: "2001-09-09T01:46:40.000555Z".to_string(),
        completed_at: completed.map(|c| c.to_string()),
        fail_reason: None,
    }
}

#[test]
fn status_names_parse_in_any_case() {
    assert_eq!(TransferStatus::from_str("Completed"), Ok(TransferStatus::Completed));
    assert_eq!(TransferStatus::from_str("PENDING"), Ok(TransferStatus::Pending));
    assert_eq!(TransferStatus::from_str("reversed"), Ok(TransferStatus::Reversed));
    assert_eq!(
        TransferStatus::from_str("done"),
        Err("Invalid transfer status: done".to_string())
    );
    assert_eq!(TransferStatus::Cancelled.as_str(), "cancelled");
    assert!(TransferStatus::Failed.is_terminal());
    assert!(!TransferStatus::Pending.is_terminal());
}

#[test]
fn event_types_parse_exactly() {
    assert_eq!(EventType::from_str("transfer_in"), Ok(EventType::TransferIn));
    assert_eq!(EventType::from_str("redeem"), Ok(EventType::Redeem));
    assert_eq!(
        EventType::from_str("Transfer_Out"),
        Err("Invalid event type: Transfer_Out".to_string())
    );
    assert_eq!(EventType::TransferOut.as_str(), "transfer_out");
}

#[test]
fn rfc3339_instants() {
    assert_eq!(
        Timestamp::parse_rfc3339("1970-01-01T00:00:01Z"),
        Some(Timestamp { micros: 1_000_000 })
    );
    assert_eq!(
        Timestamp::parse_rfc3339("2001-09-09T01:46:40.000555Z"),
        Some(Timestamp { micros: 1_000_000_000_000_555 })
    );
    assert_eq!(
        Timestamp::parse_rfc3339("1970-01-01T01:00:00+01:00"),
        Some(Timestamp { micros: 0 })
    );
    assert_eq!(Timestamp::parse_rfc3339("yesterday"), None);
}

#[test]
fn stored_transfer_reads_back() {
    let t = row("COMPLETED", "1970-01-01T00:00:01Z", Some("1970-01-01T00:00:02Z"))
        .to_domain()
        .unwrap();
    assert_eq!(t.transfer_id, Some(7));
    assert_eq!(t.idem_key, "key");
    assert_eq!(t.status, TransferStatus::Completed);
    assert_eq!(t.created_at, Timestamp { micros: 1_000_000 });
    assert_eq!(t.updated_at, Timestamp { micros: 1_000_000_000_000_555 });
    assert_eq!(t.completed_at, Some(Timestamp { micros: 2_000_000 }));
}

#[test]
fn stored_transfer_with_bad_fields_is_refused() {
    assert_eq!(
        row("done", "1970-01-01T00:00:01Z", None).to_domain().unwrap_err(),
        "Invalid status: Invalid transfer status: done"
    );
    assert_eq!(
        row("pending", "bad", None).to_domain().unwrap_err(),
        "Invalid created_at date: bad"
    );
    assert_eq!(
        row("completed", "1970-01-01T00:00:01Z", Some("later")).to_domain().unwrap_err(),
        "Invalid completed_at date: later"
    );
}

#[test]
fn stored_ledger_entry_reads_back() {
    let db = PointLedgerDb {
        id: 3,
        user_id: 4,
        change: -20,
        balance_after: 80,
        event_type: "transfer_out".to_string(),
        transfer_id: Some(2),
        reference: None,
        metadata: None,
        created_at: "1970-01-01T00:00:01Z".to_string(),
    };
    let e = db.to_domain().unwrap();
    assert_eq!(e.event_type, EventType::TransferOut);
    assert_eq!(e.change, -20);
    assert_eq!(e.created_at, Timestamp { micros: 1_000_000 });
    let bad = PointLedgerDb {
        id: 3,
        user_id: 4,
        change: -20,
        balance_after: 80,
        event_type: "gift".to_string(),
        transfer_id: None,
        reference: None,
        metadata: None,
        created_at: "1970-01-01T00:00:01Z".to_string(),
    };
    assert_eq!(
        bad.to_domain().unwrap_err(),
        "Invalid event type: Invalid event type: gift"
    );
}

#[test]
fn metadata_quotes_key_and_note() {
    let m = transfer_metadata(Some(42), "a\"b", &Some("line\nbreak".to_string()));
    assert_eq!(m, r#"{"idem_key":"a\"b","note":"line\nbreak","transfer_id":42}"#);
    let m = transfer_metadata(None, "k", &None);
    assert_eq!(m, r#"{"idem_key":"k","note":null,"transfer_id":null}"#);
}

#[test]
fn decimal_rendering() {
    assert_eq!(decimal_text(0), "0");
    assert_eq!(decimal_text(1250), "1250");
    assert_eq!(decimal_text(u32::MAX), "4294967295");
}

#[test]
fn ledger_entries_get_increasing_ids_and_pages() {
    let mut ledger = LedgerStore::new();
    for i in 0..5u64 {
        let e = ledger
            .create_ledger_entry(1, 10, 100 + 10 * i, EventType::Earn, None, None, None, Timestamp { micros: i as i64 })
            .unwrap();
        assert_eq!(e.id as u64, i + 1);
    }
    ledger
        .create_ledger_entry(2, 5, 5, EventType::Adjust, None, None, None, Timestamp { micros: 9 })
        .unwrap();
    assert_eq!(ledger.get_current_balance(1, 0), 140);
    assert_eq!(ledger.get_current_balance(2, 0), 5);
    assert_eq!(ledger.get_current_balance(3, 77), 77);
    let page = ledger.get_ledger_by_user_id(1, Some(2), Some(1));
    assert_eq!(page.len(), 2);
    assert_eq!(page[0].id, 4);
    assert_eq!(page[1].id, 3);
    assert_eq!(ledger.get_ledger_by_user_id(1, Some(10), Some(4)).len(), 1);
    assert_eq!(ledger.get_ledger_by_user_id(1, None, Some(9)).len(), 0);
    assert_eq!(ledger.get_ledger_by_user_id(1, Some(0), None).len(), 0);
}

#[test]
fn status_update_of_unknown_key_is_refused() {
    let mut store = TransferStore::new();
    let req = CreateTransferRequest { from_user_id: 1, to_user_id: 2, amount: 3, note: None };
    store.create_transfer(req, "a".to_string(), Timestamp { micros: 1 }).unwrap();
    assert_eq!(
        store.update_transfer_status("b", TransferStatus::Completed, Some(Timestamp { micros: 2 }), None, Timestamp { micros: 2 }),
        Err(TransferError::TransferNotFound)
    );
    store
        .update_transfer_status("a", TransferStatus::Failed, None, Some("x".to_string()), Timestamp { micros: 3 })
        .unwrap();
    let t = store.get_transfer_by_idem_key("a").unwrap();
    assert_eq!(t.status, TransferStatus::Failed);
    assert_eq!(t.updated_at, Timestamp { micros: 3 });
    assert_eq!(t.created_at, Timestamp { micros: 1 });
}
