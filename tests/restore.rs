use point_transfer::{
    CreateTransferRequest, EventType, LedgerStore, PointLedger, Timestamp, Transfer,
    TransferService, TransferStatus, TransferStore, UserDirectory,
};

fn record(id: u32, key: &str, status: TransferStatus) -> Transfer {
    Transfer {
        idem_key: key.to_string(),
        transfer_id: Some(id),
        from_user_id: 1,
        to_user_id: 2,
        amount: 10,
        status,
        note: None,
        created_at: Timestamp { micros: 1 },
        updated_at: Timestamp { micros: 1 },
        completed_at: if status == TransferStatus::Completed {
            Some(Timestamp { micros: 1 })
        } else {
            None
        },
        fail_reason: if status == TransferStatus::Failed {
            Some("Insufficient points".to_string())
        } else {
            None
        },
    }
}

fn entry(id: u32, user_id: u32, balance_after: u64, transfer_id: Option<u32>) -> PointLedger {
    PointLedger {
        id,
        user_id,
        change: 0,
        balance_after,
        event_type: EventType::Adjust,
        transfer_id,
        reference: None,
        metadata: None,
        created_at: Timestamp { micros: 1 },
    }
}

fn users() -> UserDirectory {
    let mut dir = UserDirectory::new();
    dir.add_user(1, 100);
    dir.add_user(2, 100);
    dir
}

#[test]
fn valid_records_restore() {
    let store = TransferStore::from_records(vec![
        record(1, "a", TransferStatus::Completed),
        record(2, "b", TransferStatus::Failed),
        record(3, "c", TransferStatus::Pending),
    ])
    .unwrap();
    assert_eq!(store.len(), 3);
    assert_eq!(store.get_transfer_by_idem_key("b").unwrap().transfer_id, Some(2));
}

#[test]
fn records_with_gaps_duplicates_or_bad_fields_are_refused() {
    assert!(TransferStore::from_records(vec![record(2, "a", TransferStatus::Pending)]).is_none());
    assert!(TransferStore::from_records(vec![
        record(1, "a", TransferStatus::Pending),
        record(2, "a", TransferStatus::Pending),
    ])
    .is_none());
    let mut bad = record(1, "a", TransferStatus::Completed);
    bad.completed_at = None;
    assert!(TransferStore::from_records(vec![bad]).is_none());
    let mut zero = record(1, "a", TransferStatus::Pending);
    zero.amount = 0;
    assert!(TransferStore::from_records(vec![zero]).is_none());
}

#[test]
fn ledger_entries_restore_in_order_only() {
    let ledger = LedgerStore::from_entries(vec![entry(1, 1, 90, None), entry(2, 2, 110, None)]).unwrap();
    assert_eq!(ledger.get_current_balance(1, 0), 90);
    assert_eq!(ledger.entries_from(1).len(), 1);
    assert_eq!(ledger.entries_from(1)[0].id, 2);
    assert_eq!(ledger.entries_from(5).len(), 0);
    assert!(LedgerStore::from_entries(vec![entry(2, 1, 90, None)]).is_none());
    assert!(ledger.refs_at_most(0));
}

#[test]
fn restored_service_continues_ids_and_balances() {
    let transfers = TransferStore::from_records(vec![record(1, "a", TransferStatus::Completed)]).unwrap();
    let ledger = LedgerStore::from_entries(vec![entry(1, 1, 90, Some(1)), entry(2, 2, 110, Some(1))]).unwrap();
    let mut svc = TransferService::restore(users(), transfers, ledger).unwrap();
    assert_eq!(svc.get_current_balance(1), 90);
    assert_eq!(svc.get_current_balance(2), 110);
    let req = CreateTransferRequest { from_user_id: 2, to_user_id: 1, amount: 10, note: None };
    let t = svc
        .create_transfer_at(req, "b".to_string(), Timestamp { micros: 5 })
        .unwrap()
        .transfer;
    assert_eq!(t.transfer_id, Some(2));
    assert_eq!(svc.get_current_balance(2), 100);
    assert_eq!(svc.get_current_balance(1), 100);
    assert_eq!(svc.ledger().entries_from(2)[0].id, 3);
}

#[test]
fn ledger_naming_unknown_transfer_is_refused() {
    let transfers = TransferStore::new();
    let ledger = LedgerStore::from_entries(vec![entry(1, 1, 90, Some(1))]).unwrap();
    assert!(!ledger.refs_at_most(0));
    assert!(TransferService::restore(users(), transfers, ledger).is_none());
}
