use vstd::prelude::*;
use crate::error::TransferError;
use crate::ledger::{LedgerStore, PointLedger, balance_of, move_error, records_transfer};
use crate::status::TransferStatus;
use crate::time::Timestamp;
use crate::transfer::{
    CreateTransferRequest, Transfer, TransferCreateResponse, TransferGetResponse,
    TransferListResponse, request_error,
};
use crate::transfer_store::{
    TransferStore, create_error, paging_error, pending_record, transfer_page, transfer_with_key,
    transfers_of_user, with_status,
};
use crate::users::{UserAccount, UserDirectory, seed_of, user_with_id};

verus! {

/// The state a transfer service holds: transfers, ledger and users, each in
/// the order they were written.
pub struct ServiceState {
    pub transfers: Seq<Transfer>,
    pub ledger: Seq<PointLedger>,
    pub users: Seq<UserAccount>,
}

/// Every ledger entry that names a transfer names one already recorded.
pub open spec fn ledger_refs_known(st: ServiceState) -> bool {
    forall|i: int|
        0 <= i < st.ledger.len() ==> match (#[trigger] st.ledger[i]).transfer_id {
            Some(id) => id <= st.transfers.len(),
            None => true,
        }
}

/// The current balance of user `u`.
pub open spec fn current_balance(st: ServiceState, u: u32) -> u64 {
    balance_of(st.ledger, u, seed_of(st.users, u))
}

/// Why a transfer request is turned away before any record is written, if it is.
pub open spec fn creation_error(st: ServiceState, req: CreateTransferRequest, key: String) -> Option<
    TransferError,
> {
    match request_error(req) {
        Some(e) => Some(e),
        None => if user_with_id(st.users, req.from_user_id) is None {
            Some(TransferError::FromUserNotFound)
        } else if user_with_id(st.users, req.to_user_id) is None {
            Some(TransferError::ToUserNotFound)
        } else if current_balance(st, req.from_user_id) < req.amount {
            Some(TransferError::InsufficientPoints)
        } else {
            create_error(st.transfers, req, key)
        },
    }
}

/// What creating a transfer under key `key` at instant `at` does: either it is
/// turned away and nothing changes, or a transfer record is appended and ends
/// `Completed`, with its two ledger entries written, or `Failed`, with the
/// reason and no ledger entry.
pub open spec fn create_transfer_post(
    before: ServiceState,
    req: CreateTransferRequest,
    key: String,
    at: Timestamp,
    after: ServiceState,
    r: Result<Transfer, TransferError>,
) -> bool {
    match creation_error(before, req, key) {
        Some(e) => r == Err::<Transfer, TransferError>(e) && after == before,
        None => {
            let p = pending_record(before.transfers.len() + 1, req, key, at);
            let from_seed = seed_of(before.users, req.from_user_id);
            let to_seed = seed_of(before.users, req.to_user_id);
            &&& r is Ok
            &&& after.users == before.users
            &&& after.transfers == before.transfers.push(r->Ok_0)
            &&& match move_error(before.ledger, p, from_seed, to_seed) {
                None => {
                    &&& r->Ok_0 == with_status(p, TransferStatus::Completed, Some(at), None, at)
                    &&& records_transfer(before.ledger, after.ledger, p, from_seed, to_seed, at)
                },
                Some(e) => {
                    &&& after.ledger == before.ledger
                    &&& r->Ok_0 == with_status(
                        p,
                        TransferStatus::Failed,
                        None,
                        r->Ok_0.fail_reason,
                        at,
                    )
                    &&& r->Ok_0.fail_reason is Some
                    &&& r->Ok_0.fail_reason->0@ == crate::error::error_text(e)
                },
            }
        },
    }
}

/// The transfer a creation response carries.
pub open spec fn created_transfer(r: Result<TransferCreateResponse, TransferError>) -> Result<
    Transfer,
    TransferError,
> {
    match r {
        Ok(resp) => Ok(resp.transfer),
        Err(e) => Err(e),
    }
}

/// Why listing a user's transfers is refused, if it is.
pub open spec fn listing_error(st: ServiceState, u: u32, page: u32, page_size: u32) -> Option<
    TransferError,
> {
    match paging_error(page, page_size) {
        Some(e) => Some(e),
        None => if user_with_id(st.users, u) is None {
            Some(TransferError::UserNotFound)
        } else {
            None
        },
    }
}

/// Relies on uuid's `Uuid::new_v4` rendered by its `Display` impl: a random
/// version-4 UUID in the 36-character hyphenated form.
#[verifier::external_body]
fn new_idempotency_key() -> (r: String)
    ensures
        r@.len() == 36,
{
    uuid::Uuid::new_v4().to_string()
}

/// Processes transfers end to end over a transfer store, a ledger and a user
/// directory. Every operation takes the service by reference, so transfers
/// are serialized: the balance check and the ledger writes of one transfer
/// form one step.
pub struct TransferService {
    transfer_store: TransferStore,
    ledger_store: LedgerStore,
    user_directory: UserDirectory,
}

impl View for TransferService {
    type V = ServiceState;

    closed spec fn view(&self) -> ServiceState {
        ServiceState {
            transfers: self.transfer_store@,
            ledger: self.ledger_store@,
            users: self.user_directory@,
        }
    }
}

impl TransferService {
    /// Both stores keep their own invariants.
    pub closed spec fn well_formed(&self) -> bool {
        &&& self.transfer_store.well_formed()
        &&& self.ledger_store.well_formed()
        &&& ledger_refs_known(self@)
    }

    /// A well-formed service's ledger names only recorded transfers.
    pub proof fn lemma_refs_known(&self)
        requires
            self.well_formed(),
        ensures
            ledger_refs_known(self@),
    {
    }

    /// A service with no transfer and an empty ledger over the given users.
    pub fn new(user_directory: UserDirectory) -> (r: TransferService)
        ensures
            r.well_formed(),
            r@ == (ServiceState {
                transfers: Seq::empty(),
                ledger: Seq::empty(),
                users: user_directory@,
            }),
    {
        TransferService {
            transfer_store: TransferStore::new(),
            ledger_store: LedgerStore::new(),
            user_directory,
        }
    }

    /// A service over previously recorded transfers and ledger entries, if
    /// every ledger entry that names a transfer names a recorded one.
    pub fn restore(user_directory: UserDirectory, transfers: TransferStore, ledger: LedgerStore) -> (r:
        Option<TransferService>)
        requires
            transfers.well_formed(),
            ledger.well_formed(),
        ensures
            r is Some <==> ledger_refs_known(
                ServiceState { transfers: transfers@, ledger: ledger@, users: user_directory@ },
            ),
            r is Some ==> r->0.well_formed() && r->0@ == (ServiceState {
                transfers: transfers@,
                ledger: ledger@,
                users: user_directory@,
            }),
    {
        if !ledger.refs_at_most(transfers.len()) {
            return None;
        }
        Some(TransferService { transfer_store: transfers, ledger_store: ledger, user_directory })
    }

    /// The transfer store.
    pub fn transfers(&self) -> (r: &TransferStore)
        requires
            self.well_formed(),
        ensures
            r@ == self@.transfers,
            r.well_formed(),
    {
        &self.transfer_store
    }

    /// The ledger.
    pub fn ledger(&self) -> (r: &LedgerStore)
        requires
            self.well_formed(),
        ensures
            r@ == self@.ledger,
            r.well_formed(),
    {
        &self.ledger_store
    }

    /// The user directory.
    pub fn users(&self) -> (r: &UserDirectory)
        ensures
            r@ == self@.users,
    {
        &self.user_directory
    }

    /// The current balance of a user: that of the user's latest ledger entry,
    /// else the user's seed balance, else 0 for an unknown user.
    pub fn get_current_balance(&self, user_id: u32) -> (r: u64)
        ensures
            r == current_balance(self@, user_id),
    {
        let seed = self.user_directory.seed_balance(user_id);
        self.ledger_store.get_current_balance(user_id, seed)
    }

    /// Creates a transfer under idempotency key `key` at instant `at`: checks
    /// the request, both users and the sender's balance, persists the transfer
    /// as pending, moves the points, and marks it completed or failed.
    pub fn create_transfer_at(&mut self, request: CreateTransferRequest, key: String, at: Timestamp) -> (r:
        Result<TransferCreateResponse, TransferError>)
        requires
            old(self).well_formed(),
        ensures
            final(self).well_formed(),
            create_transfer_post(old(self)@, request, key, at, final(self)@, created_transfer(r)),
    {
        match request.check() {
            Err(e) => {
                return Err(e);
            },
            Ok(()) => {},
        }
        let from_user = match self.user_directory.get_user_by_id(request.from_user_id) {
            Some(u) => u,
            None => {
                return Err(TransferError::FromUserNotFound);
            },
        };
        let to_user = match self.user_directory.get_user_by_id(request.to_user_id) {
            Some(u) => u,
            None => {
                return Err(TransferError::ToUserNotFound);
            },
        };
        let balance = self.ledger_store.get_current_balance(request.from_user_id, from_user.points);
        if balance < request.amount as u64 {
            return Err(TransferError::InsufficientPoints);
        }
        let ghost before = self@;
        let mut transfer = match self.transfer_store.create_transfer(request, key, at) {
            Ok(t) => t,
            Err(e) => {
                return Err(e);
            },
        };
        let moved = self.ledger_store.record_transfer(
            &transfer,
            from_user.points,
            to_user.points,
            at,
        );
        match moved {
            Ok(()) => {
                let updated = self.transfer_store.update_transfer_status(
                    transfer.idem_key.as_str(),
                    TransferStatus::Completed,
                    Some(at),
                    None,
                    at,
                );
                if let Err(e) = updated {
                    return Err(e);
                }
                transfer.status = TransferStatus::Completed;
                transfer.completed_at = Some(at);
                transfer.updated_at = at;
            },
            Err(e) => {
                let reason = e.message();
                let updated = self.transfer_store.update_transfer_status(
                    transfer.idem_key.as_str(),
                    TransferStatus::Failed,
                    None,
                    Some(reason.clone()),
                    at,
                );
                if let Err(e) = updated {
                    return Err(e);
                }
                transfer.status = TransferStatus::Failed;
                transfer.fail_reason = Some(reason);
                transfer.updated_at = at;
            },
        }
        assert(self@.transfers =~= before.transfers.push(transfer));
        Ok(TransferCreateResponse { transfer })
    }

    /// Creates a transfer under a fresh random idempotency key, stamped with
    /// the current time.
    pub fn create_transfer(&mut self, request: CreateTransferRequest) -> (r: Result<
        TransferCreateResponse,
        TransferError,
    >)
        requires
            old(self).well_formed(),
        ensures
            final(self).well_formed(),
            exists|key: String, at: Timestamp|
                create_transfer_post(old(self)@, request, key, at, final(self)@, created_transfer(r)),
            r is Ok ==> r->Ok_0.transfer.idem_key@.len() == 36,
    {
        let key = new_idempotency_key();
        let at = Timestamp::now();
        let r = self.create_transfer_at(request, key, at);
        assert(create_transfer_post(old(self)@, request, key, at, self@, created_transfer(r)));
        r
    }

    /// The transfer with idempotency key `key`.
    pub fn get_transfer(&self, key: &str) -> (r: Result<TransferGetResponse, TransferError>)
        ensures
            match transfer_with_key(self@.transfers, key@) {
                Some(t) => r is Ok && r->Ok_0.transfer == t,
                None => r is Err && r->Err_0 == TransferError::TransferNotFound,
            },
    {
        match self.transfer_store.get_transfer_by_idem_key(key) {
            Some(transfer) => Ok(TransferGetResponse { transfer }),
            None => Err(TransferError::TransferNotFound),
        }
    }

    /// Page `page` (from 1) of `page_size` (1 to 200) transfers that user
    /// `user_id` sends or receives, most recent first, with their total number.
    pub fn list_transfers(&self, user_id: u32, page: u32, page_size: u32) -> (r: Result<
        TransferListResponse,
        TransferError,
    >)
        requires
            self.well_formed(),
        ensures
            match listing_error(self@, user_id, page, page_size) {
                Some(e) => r is Err && r->Err_0 == e,
                None => {
                    &&& r is Ok
                    &&& r->Ok_0.data@ == transfer_page(self@.transfers, user_id, page, page_size)
                    &&& r->Ok_0.total == transfers_of_user(self@.transfers, user_id).len()
                    &&& r->Ok_0.page == page
                    &&& r->Ok_0.page_size == page_size
                },
            },
    {
        if page == 0 {
            return Err(TransferError::InvalidPage);
        }
        if page_size == 0 || page_size > crate::transfer_store::MAX_PAGE_SIZE {
            return Err(TransferError::InvalidPageSize);
        }
        if self.user_directory.get_user_by_id(user_id).is_none() {
            return Err(TransferError::UserNotFound);
        }
        match self.transfer_store.get_transfers_by_user_id(user_id, page, page_size) {
            Ok((data, total)) => Ok(TransferListResponse { data, page, page_size, total }),
            Err(e) => Err(e),
        }
    }
}

} // verus!
