use vstd::prelude::*;
use crate::error::TransferError;
use crate::page::page_of;
use crate::status::TransferStatus;
use crate::time::Timestamp;
use crate::transfer::{CreateTransferRequest, Transfer, lifecycle_fields_agree, request_error};

verus! {

/// The largest page size a listing accepts.
pub const MAX_PAGE_SIZE: u32 = 200;

/// The position of the transfer with key `k` in `s`, or -1 if none has it.
pub open spec fn key_index(s: Seq<Transfer>, k: Seq<char>) -> int
    decreases s.len(),
{
    if s.len() == 0 {
        -1
    } else if s.last().idem_key@ == k {
        s.len() - 1
    } else {
        key_index(s.drop_last(), k)
    }
}

/// The transfer with key `k`, if any.
pub open spec fn transfer_with_key(s: Seq<Transfer>, k: Seq<char>) -> Option<Transfer> {
    if key_index(s, k) >= 0 {
        Some(s[key_index(s, k)])
    } else {
        None
    }
}

/// The transfers that user `u` sends or receives, most recent first.
pub open spec fn transfers_of_user(s: Seq<Transfer>, u: u32) -> Seq<Transfer>
    decreases s.len(),
{
    if s.len() == 0 {
        Seq::empty()
    } else if s.last().from_user_id == u || s.last().to_user_id == u {
        seq![s.last()] + transfers_of_user(s.drop_last(), u)
    } else {
        transfers_of_user(s.drop_last(), u)
    }
}

/// Why a listing with these paging parameters is refused, if it is.
pub open spec fn paging_error(page: u32, page_size: u32) -> Option<TransferError> {
    if page == 0 {
        Some(TransferError::InvalidPage)
    } else if page_size == 0 || page_size > MAX_PAGE_SIZE {
        Some(TransferError::InvalidPageSize)
    } else {
        None
    }
}

/// Page `page` (from 1) of `page_size` items of the user's transfers.
pub open spec fn transfer_page(s: Seq<Transfer>, u: u32, page: u32, page_size: u32) -> Seq<Transfer> {
    page_of(transfers_of_user(s, u), (page - 1) * page_size, page_size as int)
}

/// A record that the store accepts: a valid request with agreeing lifecycle fields.
pub open spec fn record_ok(t: Transfer) -> bool {
    &&& t.amount > 0
    &&& t.from_user_id != t.to_user_id
    &&& crate::transfer::note_fits(t.note)
    &&& lifecycle_fields_agree(t.status, t.completed_at, t.fail_reason)
}

/// The record that `create_transfer` writes.
pub open spec fn pending_record(
    id: nat,
    req: CreateTransferRequest,
    key: String,
    at: Timestamp,
) -> Transfer {
    Transfer {
        idem_key: key,
        transfer_id: Some(id as u32),
        from_user_id: req.from_user_id,
        to_user_id: req.to_user_id,
        amount: req.amount,
        status: TransferStatus::Pending,
        note: req.note,
        created_at: at,
        updated_at: at,
        completed_at: None,
        fail_reason: None,
    }
}

/// Why `create_transfer` refuses the request, if it does.
pub open spec fn create_error(s: Seq<Transfer>, req: CreateTransferRequest, key: String) -> Option<
    TransferError,
> {
    match request_error(req) {
        Some(e) => Some(e),
        None => if key_index(s, key@) >= 0 {
            Some(TransferError::DuplicateKey)
        } else if s.len() >= u32::MAX {
            Some(TransferError::StoreFull)
        } else {
            None
        },
    }
}

/// `t` with a new status and lifecycle fields, stamped at `at`.
pub open spec fn with_status(
    t: Transfer,
    status: TransferStatus,
    completed_at: Option<Timestamp>,
    fail_reason: Option<String>,
    at: Timestamp,
) -> Transfer {
    Transfer { status, completed_at, fail_reason, updated_at: at, ..t }
}

/// `key_index` is -1 or a position whose record has the key; -1 means no
/// record has it.
pub proof fn lemma_key_index_range(s: Seq<Transfer>, k: Seq<char>)
    ensures
        -1 <= key_index(s, k) < s.len(),
        key_index(s, k) >= 0 ==> s[key_index(s, k)].idem_key@ == k,
        key_index(s, k) < 0 ==> forall|i: int| 0 <= i < s.len() ==> #[trigger] s[i].idem_key@ != k,
    decreases s.len(),
{
    if s.len() > 0 {
        lemma_key_index_range(s.drop_last(), k);
        assert forall|i: int| 0 <= i < s.len() - 1 implies #[trigger] s[i] == s.drop_last()[i] by {}
    }
}

/// A sequence of records that a store may hold: ids run in creation order,
/// keys are unique, every record is valid.
pub open spec fn records_ok(s: Seq<Transfer>) -> bool {
    &&& s.len() <= u32::MAX
    &&& forall|i: int| 0 <= i < s.len() ==> #[trigger] s[i].transfer_id == Some((i + 1) as u32)
    &&& forall|i: int| 0 <= i < s.len() ==> record_ok(#[trigger] s[i])
    &&& forall|i: int, j: int|
        0 <= i < s.len() && 0 <= j < s.len() && i != j ==> #[trigger] s[i].idem_key@
            != #[trigger] s[j].idem_key@
}

/// Persisted transfers in creation order, each idempotency key at most once.
pub struct TransferStore {
    transfers: Vec<Transfer>,
}

impl View for TransferStore {
    type V = Seq<Transfer>;

    closed spec fn view(&self) -> Seq<Transfer> {
        self.transfers@
    }
}

impl TransferStore {
    /// Ids run in creation order, keys are unique, every record is valid.
    pub open spec fn well_formed(&self) -> bool {
        records_ok(self@)
    }

    /// A store with no transfer.
    pub fn new() -> (r: TransferStore)
        ensures
            r.well_formed(),
            r@ == Seq::<Transfer>::empty(),
    {
        TransferStore { transfers: Vec::new() }
    }

    /// The number of transfers.
    pub fn len(&self) -> (r: usize)
        ensures
            r == self@.len(),
    {
        self.transfers.len()
    }

    /// A store holding `records`, if they form a valid store.
    pub fn from_records(records: Vec<Transfer>) -> (r: Option<TransferStore>)
        ensures
            r is Some <==> records_ok(records@),
            r is Some ==> r->0.well_formed() && r->0@ == records@,
    {
        let mut store = TransferStore::new();
        let mut i: usize = 0;
        while i < records.len()
            invariant
                store.well_formed(),
                i <= records@.len(),
                store@ == records@.subrange(0, i as int),
            decreases records@.len() - i,
        {
            let t = records[i].clone();
            let id_ok = match t.transfer_id {
                Some(id) => i < 0xffff_ffffusize && id as usize == i + 1,
                None => false,
            };
            if !id_ok || !Self::record_is_ok(&t) {
                return None;
            }
            proof {
                lemma_key_index_range(store@, t.idem_key@);
            }
            if store.find_key(t.idem_key.as_str()).is_some() {
                proof {
                    let k = key_index(store@, t.idem_key@);
                    assert(records@[k] == store@[k]);
                }
                return None;
            }
            store.transfers.push(t);
            i = i + 1;
            assert(store@ =~= records@.subrange(0, i as int));
        }
        assert(store@ =~= records@);
        Some(store)
    }

    fn record_is_ok(t: &Transfer) -> (r: bool)
        ensures
            r == record_ok(*t),
    {
        let note_ok = match &t.note {
            Some(n) => n.as_str().unicode_len() <= crate::transfer::NOTE_MAX_CHARS,
            None => true,
        };
        let completed_ok = t.completed_at.is_some() == (t.status == TransferStatus::Completed);
        let failed_ok = t.fail_reason.is_some() == (t.status == TransferStatus::Failed);
        t.amount > 0 && t.from_user_id != t.to_user_id && note_ok && completed_ok && failed_ok
    }

    fn find_key(&self, key: &str) -> (r: Option<usize>)
        ensures
            match r {
                Some(i) => i == key_index(self@, key@),
                None => key_index(self@, key@) < 0,
            },
    {
        let mut i = self.transfers.len();
        assert(self@.subrange(0, i as int) =~= self@);
        while i > 0
            invariant
                i <= self@.len(),
                key_index(self@.subrange(0, i as int), key@) == key_index(self@, key@),
            decreases i,
        {
            assert(self@.subrange(0, i as int).drop_last() =~= self@.subrange(0, i - 1));
            if crate::text::same_text(self.transfers[i - 1].idem_key.as_str(), key) {
                return Some(i - 1);
            }
            i = i - 1;
        }
        None
    }

    /// Validates the request and persists it as a pending transfer under key
    /// `key`, created at `at`, with the next id.
    pub fn create_transfer(&mut self, request: CreateTransferRequest, key: String, at: Timestamp) -> (r:
        Result<Transfer, TransferError>)
        requires
            old(self).well_formed(),
        ensures
            final(self).well_formed(),
            match create_error(old(self)@, request, key) {
                Some(e) => r == Err::<Transfer, TransferError>(e) && final(self)@ == old(self)@,
                None => {
                    let t = pending_record(old(self)@.len() + 1, request, key, at);
                    r == Ok::<Transfer, TransferError>(t) && final(self)@ == old(self)@.push(t)
                },
            },
    {
        match request.check() {
            Err(e) => {
                return Err(e);
            },
            Ok(()) => {},
        }
        if self.find_key(key.as_str()).is_some() {
            return Err(TransferError::DuplicateKey);
        }
        if self.transfers.len() >= 0xffff_ffffusize {
            return Err(TransferError::StoreFull);
        }
        proof {
            lemma_key_index_range(self@, key@);
        }
        let id = (self.transfers.len() + 1) as u32;
        let t = Transfer {
            idem_key: key,
            transfer_id: Some(id),
            from_user_id: request.from_user_id,
            to_user_id: request.to_user_id,
            amount: request.amount,
            status: TransferStatus::Pending,
            note: request.note,
            created_at: at,
            updated_at: at,
            completed_at: None,
            fail_reason: None,
        };
        let out = t.clone();
        self.transfers.push(t);
        Ok(out)
    }

    /// The transfer with idempotency key `key`, if any.
    pub fn get_transfer_by_idem_key(&self, key: &str) -> (r: Option<Transfer>)
        ensures
            r == transfer_with_key(self@, key@),
    {
        proof {
            lemma_key_index_range(self@, key@);
        }
        match self.find_key(key) {
            Some(i) => Some(self.transfers[i].clone()),
            None => None,
        }
    }

    /// Page `page` (from 1) of `page_size` transfers that user `user_id` sends
    /// or receives, most recent first, with the number of all such transfers.
    pub fn get_transfers_by_user_id(&self, user_id: u32, page: u32, page_size: u32) -> (r: Result<
        (Vec<Transfer>, u32),
        TransferError,
    >)
        requires
            self.well_formed(),
        ensures
            match paging_error(page, page_size) {
                Some(e) => r == Err::<(Vec<Transfer>, u32), TransferError>(e),
                None => r is Ok && r->Ok_0.0@ == transfer_page(self@, user_id, page, page_size)
                    && r->Ok_0.1 == transfers_of_user(self@, user_id).len(),
            },
    {
        if page == 0 {
            return Err(TransferError::InvalidPage);
        }
        if page_size == 0 || page_size > MAX_PAGE_SIZE {
            return Err(TransferError::InvalidPageSize);
        }
        assert((page as u64 - 1) * (page_size as u64) <= 0xffff_ffffu64 * 200) by (nonlinear_arith)
            requires
                1 <= page <= 0xffff_ffffu64,
                page_size <= 200,
        ;
        let offset: u64 = (page as u64 - 1) * page_size as u64;
        let limit: u64 = page_size as u64;
        let mut total: u32 = 0;
        let mut out: Vec<Transfer> = Vec::new();
        let mut i = self.transfers.len();
        let ghost all = transfers_of_user(self@, user_id);
        let ghost seen: Seq<Transfer> = Seq::empty();
        assert(self@.subrange(0, i as int) =~= self@);
        while i > 0
            invariant
                i <= self@.len(),
                self@.len() <= u32::MAX,
                all == transfers_of_user(self@, user_id),
                seen + transfers_of_user(self@.subrange(0, i as int), user_id) == all,
                total == seen.len(),
                seen.len() + i <= self@.len(),
                out@ == page_of(seen, offset as int, limit as int),
            decreases i,
        {
            let ghost prefix = self@.subrange(0, i as int);
            assert(prefix.drop_last() =~= self@.subrange(0, i - 1));
            let t = &self.transfers[i - 1];
            if t.from_user_id == user_id || t.to_user_id == user_id {
                proof {
                    assert(seen.push(prefix.last()) + transfers_of_user(prefix.drop_last(), user_id)
                        =~= seen + transfers_of_user(prefix, user_id));
                }
                if total as u64 >= offset && (out.len() as u64) < limit {
                    out.push(t.clone());
                }
                proof {
                    seen = seen.push(prefix.last());
                }
                assert(out@ =~= page_of(seen, offset as int, limit as int));
                total = total + 1;
            }
            i = i - 1;
        }
        proof {
            let e = transfers_of_user(self@.subrange(0, i as int), user_id);
            assert(e =~= Seq::<Transfer>::empty());
            assert(seen =~= all);
        }
        Ok((out, total))
    }

    /// Sets the status and lifecycle fields of the transfer with key `key`,
    /// refreshing its `updated_at` to `at`.
    pub fn update_transfer_status(
        &mut self,
        key: &str,
        status: TransferStatus,
        completed_at: Option<Timestamp>,
        fail_reason: Option<String>,
        at: Timestamp,
    ) -> (r: Result<(), TransferError>)
        requires
            old(self).well_formed(),
            lifecycle_fields_agree(status, completed_at, fail_reason),
        ensures
            final(self).well_formed(),
            key_index(old(self)@, key@) < 0 ==> r == Err::<(), TransferError>(
                TransferError::TransferNotFound,
            ) && final(self)@ == old(self)@,
            key_index(old(self)@, key@) >= 0 ==> r is Ok && final(self)@ == old(self)@.update(
                key_index(old(self)@, key@),
                with_status(
                    old(self)@[key_index(old(self)@, key@)],
                    status,
                    completed_at,
                    fail_reason,
                    at,
                ),
            ),
    {
        proof {
            lemma_key_index_range(self@, key@);
        }
        match self.find_key(key) {
            None => Err(TransferError::TransferNotFound),
            Some(i) => {
                let old_t = self.transfers[i].clone();
                let t = Transfer {
                    status,
                    completed_at,
                    fail_reason,
                    updated_at: at,
                    ..old_t
                };
                self.transfers.set(i, t);
                Ok(())
            },
        }
    }
}

} // verus!
