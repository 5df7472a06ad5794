use vstd::prelude::*;
use crate::error::TransferError;
use crate::status::{TransferStatus, status_named, lowercase_of};
use crate::time::{Timestamp, rfc3339_micros};

verus! {

/// The longest note a transfer may carry, in characters.
pub const NOTE_MAX_CHARS: usize = 512;

/// One transfer attempt and its lifecycle.
#[derive(Debug)]
pub struct Transfer {
    pub idem_key: String,
    pub transfer_id: Option<u32>,
    pub from_user_id: u32,
    pub to_user_id: u32,
    pub amount: u32,
    pub status: TransferStatus,
    pub note: Option<String>,
    pub created_at: Timestamp,
    pub updated_at: Timestamp,
    pub completed_at: Option<Timestamp>,
    pub fail_reason: Option<String>,
}

/// A request to move `amount` points from one user to another.
#[derive(Debug)]
pub struct CreateTransferRequest {
    pub from_user_id: u32,
    pub to_user_id: u32,
    pub amount: u32,
    pub note: Option<String>,
}

/// `completed_at` is set exactly when the status is `Completed`, and
/// `fail_reason` exactly when it is `Failed`.
pub open spec fn lifecycle_fields_agree(
    status: TransferStatus,
    completed_at: Option<Timestamp>,
    fail_reason: Option<String>,
) -> bool {
    &&& (completed_at is Some <==> status == TransferStatus::Completed)
    &&& (fail_reason is Some <==> status == TransferStatus::Failed)
}

/// Whether a note fits the length limit.
pub open spec fn note_fits(note: Option<String>) -> bool {
    match note {
        Some(n) => n@.len() <= NOTE_MAX_CHARS,
        None => true,
    }
}

/// The first rule that a request breaks, if any: a positive amount, two
/// distinct users, a note of at most 512 characters.
pub open spec fn request_error(r: CreateTransferRequest) -> Option<TransferError> {
    if r.amount == 0 {
        Some(TransferError::ZeroAmount)
    } else if r.from_user_id == r.to_user_id {
        Some(TransferError::SameUser)
    } else if !note_fits(r.note) {
        Some(TransferError::NoteTooLong)
    } else {
        None
    }
}

/// A copy of an optional text.
pub fn copy_text(t: &Option<String>) -> (r: Option<String>)
    ensures
        r == *t,
{
    match t {
        Some(s) => Some(s.clone()),
        None => None,
    }
}

impl Clone for Transfer {
    fn clone(&self) -> (r: Self)
        ensures
            r == *self,
    {
        Transfer {
            idem_key: self.idem_key.clone(),
            transfer_id: self.transfer_id,
            from_user_id: self.from_user_id,
            to_user_id: self.to_user_id,
            amount: self.amount,
            status: self.status,
            note: copy_text(&self.note),
            created_at: self.created_at,
            updated_at: self.updated_at,
            completed_at: self.completed_at,
            fail_reason: copy_text(&self.fail_reason),
        }
    }
}

impl Clone for CreateTransferRequest {
    fn clone(&self) -> (r: Self)
        ensures
            r == *self,
    {
        CreateTransferRequest {
            from_user_id: self.from_user_id,
            to_user_id: self.to_user_id,
            amount: self.amount,
            note: copy_text(&self.note),
        }
    }
}

impl CreateTransferRequest {
    /// Checks the request against the transfer rules, reporting the first one broken.
    pub fn check(&self) -> (r: Result<(), TransferError>)
        ensures
            r == (match request_error(*self) {
                Some(e) => Err(e),
                None => Ok(()),
            }),
    {
        if self.amount == 0 {
            return Err(TransferError::ZeroAmount);
        }
        if self.from_user_id == self.to_user_id {
            return Err(TransferError::SameUser);
        }
        match &self.note {
            Some(note) => {
                if note.as_str().unicode_len() > NOTE_MAX_CHARS {
                    return Err(TransferError::NoteTooLong);
                }
            },
            None => {},
        }
        Ok(())
    }

    /// Checks the request, describing the first rule broken in words.
    pub fn validate(&self) -> (r: Result<(), String>)
        ensures
            match request_error(*self) {
                Some(e) => r is Err && r->Err_0@ == crate::error::error_text(e),
                None => r is Ok,
            },
    {
        match self.check() {
            Ok(()) => Ok(()),
            Err(e) => Err(e.message()),
        }
    }
}

/// Response to a transfer creation.
#[derive(Debug)]
pub struct TransferCreateResponse {
    pub transfer: Transfer,
}

/// Response to a transfer lookup.
#[derive(Debug)]
pub struct TransferGetResponse {
    pub transfer: Transfer,
}

/// One page of a user's transfers, with the number of all of them.
#[derive(Debug)]
pub struct TransferListResponse {
    pub data: Vec<Transfer>,
    pub page: u32,
    pub page_size: u32,
    pub total: u32,
}

/// The page asked for when none is given.
pub const DEFAULT_PAGE: u32 = 1;

/// The page size asked for when none is given.
pub const DEFAULT_PAGE_SIZE: u32 = 20;

/// Query of a user's transfers; page and page size are optional.
#[derive(Clone, Copy, Debug, PartialEq, Eq, Structural)]
pub struct ListTransfersQuery {
    pub user_id: u32,
    pub page: Option<u32>,
    pub page_size: Option<u32>,
}

impl ListTransfersQuery {
    /// The page asked for, 1 when none is given.
    pub fn page_or_default(&self) -> (r: u32)
        ensures
            r == (match self.page {
                Some(p) => p,
                None => DEFAULT_PAGE,
            }),
    {
        match self.page {
            Some(p) => p,
            None => DEFAULT_PAGE,
        }
    }

    /// The page size asked for, 20 when none is given.
    pub fn page_size_or_default(&self) -> (r: u32)
        ensures
            r == (match self.page_size {
                Some(p) => p,
                None => DEFAULT_PAGE_SIZE,
            }),
    {
        match self.page_size {
            Some(p) => p,
            None => DEFAULT_PAGE_SIZE,
        }
    }
}

/// A transfer as stored: status and instants as text.
#[derive(Debug)]
pub struct TransferDb {
    pub id: u32,
    pub from_user_id: u32,
    pub to_user_id: u32,
    pub amount: u32,
    pub status: String,
    pub note: Option<String>,
    pub idempotency_key: String,
    pub created_at: String,
    pub updated_at: String,
    pub completed_at: Option<String>,
    pub fail_reason: Option<String>,
}

/// Why a stored transfer cannot be read back, if it cannot: the first field
/// that does not parse, with the message reported for it.
pub open spec fn transfer_row_problem(db: TransferDb) -> Option<Seq<char>> {
    if status_named(lowercase_of(db.status@)) is None {
        Some("Invalid status: Invalid transfer status: "@ + db.status@)
    } else if rfc3339_micros(db.created_at@) is None {
        Some("Invalid created_at date: "@ + db.created_at@)
    } else if rfc3339_micros(db.updated_at@) is None {
        Some("Invalid updated_at date: "@ + db.updated_at@)
    } else if db.completed_at is Some && rfc3339_micros(db.completed_at->0@) is None {
        Some("Invalid completed_at date: "@ + db.completed_at->0@)
    } else {
        None
    }
}

/// The transfer that a stored row holds, when every field parses.
pub open spec fn transfer_of_row(db: TransferDb) -> Transfer {
    Transfer {
        idem_key: db.idempotency_key,
        transfer_id: Some(db.id),
        from_user_id: db.from_user_id,
        to_user_id: db.to_user_id,
        amount: db.amount,
        status: status_named(lowercase_of(db.status@))->0,
        note: db.note,
        created_at: Timestamp { micros: rfc3339_micros(db.created_at@)->0 },
        updated_at: Timestamp { micros: rfc3339_micros(db.updated_at@)->0 },
        completed_at: match db.completed_at {
            Some(c) => Some(Timestamp { micros: rfc3339_micros(c@)->0 }),
            None => None,
        },
        fail_reason: db.fail_reason,
    }
}

impl TransferDb {
    /// Reads a stored row back into a transfer.
    pub fn to_domain(self) -> (r: Result<Transfer, String>)
        ensures
            match transfer_row_problem(self) {
                Some(msg) => r is Err && r->Err_0@ == msg,
                None => r == Ok::<Transfer, String>(transfer_of_row(self)),
            },
    {
        proof {
            reveal_strlit("Invalid status: ");
            reveal_strlit("Invalid transfer status: ");
            reveal_strlit("Invalid status: Invalid transfer status: ");
        }
        let status = match TransferStatus::from_str(self.status.as_str()) {
            Ok(s) => s,
            Err(e) => {
                return Err("Invalid status: ".to_owned().concat(e.as_str()));
            },
        };
        let created_at = match Timestamp::parse_rfc3339(self.created_at.as_str()) {
            Some(t) => t,
            None => {
                return Err("Invalid created_at date: ".to_owned().concat(self.created_at.as_str()));
            },
        };
        let updated_at = match Timestamp::parse_rfc3339(self.updated_at.as_str()) {
            Some(t) => t,
            None => {
                return Err("Invalid updated_at date: ".to_owned().concat(self.updated_at.as_str()));
            },
        };
        let completed_at = match &self.completed_at {
            Some(c) => match Timestamp::parse_rfc3339(c.as_str()) {
                Some(t) => Some(t),
                None => {
                    return Err("Invalid completed_at date: ".to_owned().concat(c.as_str()));
                },
            },
            None => None,
        };
        Ok(Transfer {
            idem_key: self.idempotency_key,
            transfer_id: Some(self.id),
            from_user_id: self.from_user_id,
            to_user_id: self.to_user_id,
            amount: self.amount,
            status,
            note: self.note,
            created_at,
            updated_at,
            completed_at,
            fail_reason: self.fail_reason,
        })
    }
}

} // verus!
