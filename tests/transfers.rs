use point_transfer::error::{ErrorResponse, TransferError};
use point_transfer::service::TransferService;
use point_transfer::status::{EventType, TransferStatus};
use point_transfer::time::Timestamp;
use point_transfer::transfer::{CreateTransferRequest, ListTransfersQuery};
use point_transfer::users::UserDirectory;

const ALICE: u32 = 1;
const BOB: u32 = 2;
const CAROL: u32 = 3;

fn service_with(users: &[(u32, u64)]) -> TransferService {
    let mut dir = UserDirectory::new();
    for (id, points) in users {
        assert!(dir.add_user(*id, *points));
    }
    TransferService::new(dir)
}

fn request(from: u32, to: u32, amount: u32, note: Option<&str>) -> CreateTransferRequest {
    CreateTransferRequest {
        from_user_id: from,
        to_user_id: to,
        amount,
        note: note.map(|n| n.to_string()),
    }
}

fn at(micros: i64) -> Timestamp {
    Timestamp { micros }
}

#[test]
fn completed_transfer_moves_points_and_writes_two_entries() {
    let mut svc = service_with(&[(ALICE, 1500), (BOB, 750)]);
    let resp = svc
        .create_transfer_at(request(ALICE, BOB, 500, None), "key-1".to_string(), at(10))
        .unwrap();
    let t = resp.transfer;
    assert_eq!(t.status, TransferStatus::Completed);
    assert_eq!(t.completed_at, Some(at(10)));
    assert_eq!(t.fail_reason, None);
    assert_eq!(t.transfer_id, Some(1));
    assert_eq!(svc.get_current_balance(ALICE), 1000);
    assert_eq!(svc.get_current_balance(BOB), 1250);

    let ledger = svc.ledger();
    assert_eq!(ledger.len(), 2);
    let a = ledger.get_ledger_by_user_id(ALICE, None, None);
    assert_eq!(a.len(), 1);
    assert_eq!(a[0].event_type, EventType::TransferOut);
    assert_eq!(a[0].change, -500);
    assert_eq!(a[0].balance_after, 1000);
    assert_eq!(a[0].transfer_id, Some(1));
    assert_eq!(a[0].reference.as_deref(), Some("Transfer to user 2"));
    assert_eq!(
        a[0].metadata.as_deref(),
        Some(r#"{"idem_key":"key-1","note":null,"transfer_id":1}"#)
    );
    let b = ledger.get_ledger_by_user_id(BOB, None, None);
    assert_eq!(b.len(), 1);
    assert_eq!(b[0].event_type, EventType::TransferIn);
    assert_eq!(b[0].change, 500);
    assert_eq!(b[0].balance_after, 1250);
    assert_eq!(b[0].reference.as_deref(), Some("Transfer from user 1"));
    assert_eq!(a[0].change + b[0].change, 0);
}

#[test]
fn transfer_with_generated_key_can_be_looked_up() {
    let mut svc = service_with(&[(ALICE, 1500), (BOB, 750)]);
    let t = svc
        .create_transfer(request(ALICE, BOB, 100, Some("lunch")))
        .unwrap()
        .transfer;
    assert_eq!(t.idem_key.len(), 36);
    assert_eq!(t.status, TransferStatus::Completed);
    let got = svc.get_transfer(&t.idem_key).unwrap().transfer;
    assert_eq!(got.from_user_id, ALICE);
    assert_eq!(got.to_user_id, BOB);
    assert_eq!(got.amount, 100);
    assert_eq!(got.note.as_deref(), Some("lunch"));
    assert_eq!(got.status, TransferStatus::Completed);
}

#[test]
fn generated_keys_differ() {
    let mut svc = service_with(&[(ALICE, 1500), (BOB, 750)]);
    let t1 = svc.create_transfer(request(ALICE, BOB, 1, None)).unwrap().transfer;
    let t2 = svc.create_transfer(request(ALICE, BOB, 1, None)).unwrap().transfer;
    assert_ne!(t1.idem_key, t2.idem_key);
    assert_eq!(svc.transfers().len(), 2);
}

#[test]
fn duplicate_key_is_refused() {
    let mut svc = service_with(&[(ALICE, 1500), (BOB, 750)]);
    svc.create_transfer_at(request(ALICE, BOB, 1, None), "k".to_string(), at(1))
        .unwrap();
    let e = svc
        .create_transfer_at(request(ALICE, BOB, 1, None), "k".to_string(), at(2))
        .unwrap_err();
    assert_eq!(e, TransferError::DuplicateKey);
    assert_eq!(svc.transfers().len(), 1);
    assert_eq!(svc.ledger().len(), 2);
}

#[test]
fn debits_within_balance_all_complete() {
    let mut svc = service_with(&[(ALICE, 1500), (BOB, 750), (CAROL, 0)]);
    let amounts = [500u32, 700, 300];
    for (i, amount) in amounts.iter().enumerate() {
        let to = if i % 2 == 0 { BOB } else { CAROL };
        let t = svc
            .create_transfer_at(request(ALICE, to, *amount, None), format!("k{}", i), at(i as i64))
            .unwrap()
            .transfer;
        assert_eq!(t.status, TransferStatus::Completed);
    }
    assert_eq!(svc.get_current_balance(ALICE), 0);
    assert_eq!(svc.get_current_balance(BOB), 750 + 500 + 300);
    assert_eq!(svc.get_current_balance(CAROL), 700);
}

#[test]
fn amount_above_balance_is_refused_without_entries() {
    let mut svc = service_with(&[(ALICE, 1500), (BOB, 750)]);
    let e = svc
        .create_transfer_at(request(ALICE, BOB, 1501, None), "k".to_string(), at(1))
        .unwrap_err();
    assert_eq!(e, TransferError::InsufficientPoints);
    assert_eq!(svc.ledger().len(), 0);
    assert_eq!(svc.transfers().len(), 0);
    assert_eq!(svc.get_current_balance(ALICE), 1500);
}

#[test]
fn zero_amount_is_refused() {
    let mut svc = service_with(&[(ALICE, 1500), (BOB, 750)]);
    let e = svc
        .create_transfer_at(request(ALICE, BOB, 0, None), "k".to_string(), at(1))
        .unwrap_err();
    assert_eq!(e, TransferError::ZeroAmount);
    assert_eq!(e.http_status(), 400);
}

#[test]
fn transfer_to_oneself_is_refused() {
    let mut svc = service_with(&[(ALICE, 1500)]);
    let e = svc
        .create_transfer_at(request(ALICE, ALICE, 10, None), "k".to_string(), at(1))
        .unwrap_err();
    assert_eq!(e, TransferError::SameUser);
    assert_eq!(e.http_status(), 422);
}

#[test]
fn note_of_513_characters_is_refused() {
    let mut svc = service_with(&[(ALICE, 1500), (BOB, 750)]);
    let long = "x".repeat(513);
    let e = svc
        .create_transfer_at(request(ALICE, BOB, 10, Some(&long)), "k".to_string(), at(1))
        .unwrap_err();
    assert_eq!(e, TransferError::NoteTooLong);
    let fits = "é".repeat(512);
    let t = svc
        .create_transfer_at(request(ALICE, BOB, 10, Some(&fits)), "k2".to_string(), at(1))
        .unwrap()
        .transfer;
    assert_eq!(t.status, TransferStatus::Completed);
}

#[test]
fn validate_messages() {
    assert_eq!(
        request(ALICE, BOB, 0, None).validate(),
        Err("Amount must be greater than 0".to_string())
    );
    assert_eq!(
        request(ALICE, ALICE, 5, None).validate(),
        Err("Cannot transfer to the same user".to_string())
    );
    assert_eq!(
        request(ALICE, BOB, 5, Some(&"n".repeat(513))).validate(),
        Err("Note cannot exceed 512 characters".to_string())
    );
    assert_eq!(request(ALICE, BOB, 5, Some(&"n".repeat(512))).validate(), Ok(()));
}

#[test]
fn unknown_users_are_reported() {
    let mut svc = service_with(&[(ALICE, 1500), (BOB, 750)]);
    let e = svc
        .create_transfer_at(request(9, BOB, 10, None), "k".to_string(), at(1))
        .unwrap_err();
    assert_eq!(e, TransferError::FromUserNotFound);
    assert_eq!(e.http_status(), 404);
    let e = svc
        .create_transfer_at(request(ALICE, 9, 10, None), "k".to_string(), at(1))
        .unwrap_err();
    assert_eq!(e, TransferError::ToUserNotFound);
    assert_eq!(e.message(), "To user not found");
}

#[test]
fn receiver_overflow_marks_transfer_failed() {
    let mut svc = service_with(&[(ALICE, 1500), (BOB, u64::MAX - 10)]);
    let t = svc
        .create_transfer_at(request(ALICE, BOB, 100, None), "k".to_string(), at(5))
        .unwrap()
        .transfer;
    assert_eq!(t.status, TransferStatus::Failed);
    assert_eq!(t.fail_reason.as_deref(), Some("Balance overflow"));
    assert_eq!(t.completed_at, None);
    assert_eq!(svc.ledger().len(), 0);
    let stored = svc.get_transfer("k").unwrap().transfer;
    assert_eq!(stored.status, TransferStatus::Failed);
    assert_eq!(svc.get_current_balance(ALICE), 1500);
}

#[test]
fn listing_checks_paging_bounds() {
    let svc = service_with(&[(ALICE, 1500), (BOB, 750)]);
    assert_eq!(svc.list_transfers(ALICE, 0, 20).unwrap_err(), TransferError::InvalidPage);
    assert_eq!(svc.list_transfers(ALICE, 1, 0).unwrap_err(), TransferError::InvalidPageSize);
    assert_eq!(svc.list_transfers(ALICE, 1, 201).unwrap_err(), TransferError::InvalidPageSize);
    assert!(svc.list_transfers(ALICE, 1, 200).is_ok());
    assert_eq!(svc.list_transfers(77, 1, 20).unwrap_err(), TransferError::UserNotFound);
}

#[test]
fn listing_pages_newest_first_with_total() {
    let mut svc = service_with(&[(ALICE, 1500), (BOB, 750), (CAROL, 10)]);
    for i in 0..25u32 {
        svc.create_transfer_at(request(ALICE, BOB, 1, None), format!("k{}", i), at(i as i64))
            .unwrap();
    }
    svc.create_transfer_at(request(CAROL, BOB, 1, None), "c".to_string(), at(100))
        .unwrap();
    let first = svc.list_transfers(ALICE, 1, 20).unwrap();
    assert_eq!(first.data.len(), 20);
    assert_eq!(first.total, 25);
    assert_eq!(first.page, 1);
    assert_eq!(first.page_size, 20);
    assert_eq!(first.data[0].idem_key, "k24");
    assert_eq!(first.data[19].idem_key, "k5");
    let second = svc.list_transfers(ALICE, 2, 20).unwrap();
    assert_eq!(second.data.len(), 5);
    assert_eq!(second.data[4].idem_key, "k0");
    let third = svc.list_transfers(ALICE, 3, 20).unwrap();
    assert_eq!(third.data.len(), 0);
    assert_eq!(third.total, 25);
    let bob = svc.list_transfers(BOB, 1, 20).unwrap();
    assert_eq!(bob.total, 26);
    assert_eq!(bob.data[0].idem_key, "c");
}

#[test]
fn unknown_transfer_is_not_found() {
    let svc = service_with(&[(ALICE, 1500)]);
    let e = svc.get_transfer("nope").unwrap_err();
    assert_eq!(e, TransferError::TransferNotFound);
    assert_eq!(e.http_status(), 404);
}

#[test]
fn error_bodies_and_statuses() {
    let body = ErrorResponse::from_error(TransferError::InsufficientPoints);
    assert_eq!(body.error, "INSUFFICIENT_POINTS");
    assert_eq!(body.message, "Insufficient points");
    assert_eq!(TransferError::InsufficientPoints.http_status(), 409);
    assert_eq!(TransferError::StoreFull.http_status(), 500);
    assert_eq!(TransferError::InvalidPageSize.http_status(), 400);
    let body = ErrorResponse::from_error(TransferError::SameUser);
    assert_eq!(body.error, "INVALID_TRANSFER");
}

#[test]
fn query_defaults() {
    let q = ListTransfersQuery { user_id: 1, page: None, page_size: None };
    assert_eq!(q.page_or_default(), 1);
    assert_eq!(q.page_size_or_default(), 20);
    let q = ListTransfersQuery { user_id: 1, page: Some(3), page_size: Some(50) };
    assert_eq!(q.page_or_default(), 3);
    assert_eq!(q.page_size_or_default(), 50);
}

#[test]
fn directory_refuses_duplicate_ids() {
    let mut dir = UserDirectory::new();
    assert!(dir.add_user(1, 10));
    assert!(!dir.add_user(1, 20));
    assert_eq!(dir.seed_balance(1), 10);
    assert_eq!(dir.seed_balance(2), 0);
    assert_eq!(dir.get_user_by_id(1).map(|u| u.points), Some(10));
}
