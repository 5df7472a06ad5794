use vstd::prelude::*;

verus! {

/// Lifecycle state of a transfer. A transfer starts `Pending` and ends
/// `Completed` or `Failed`; the other states name future workflows.
#[derive(Clone, Copy, Debug, PartialEq, Eq, Structural)]
pub enum TransferStatus {
    Pending,
    Processing,
    Completed,
    Failed,
    Cancelled,
    Reversed,
}

/// Kind of balance-changing event recorded in the ledger.
#[derive(Clone, Copy, Debug, PartialEq, Eq, Structural)]
pub enum EventType {
    TransferOut,
    TransferIn,
    Adjust,
    Earn,
    Redeem,
}

/// The lower-case name of a status.
pub open spec fn status_name(s: TransferStatus) -> Seq<char> {
    match s {
        TransferStatus::Pending => "pending"@,
        TransferStatus::Processing => "processing"@,
        TransferStatus::Completed => "completed"@,
        TransferStatus::Failed => "failed"@,
        TransferStatus::Cancelled => "cancelled"@,
        TransferStatus::Reversed => "reversed"@,
    }
}

/// The status whose name is exactly `s`, if any.
pub open spec fn status_named(s: Seq<char>) -> Option<TransferStatus> {
    if s == "pending"@ {
        Some(TransferStatus::Pending)
    } else if s == "processing"@ {
        Some(TransferStatus::Processing)
    } else if s == "completed"@ {
        Some(TransferStatus::Completed)
    } else if s == "failed"@ {
        Some(TransferStatus::Failed)
    } else if s == "cancelled"@ {
        Some(TransferStatus::Cancelled)
    } else if s == "reversed"@ {
        Some(TransferStatus::Reversed)
    } else {
        None
    }
}

/// The snake-case name of an event type.
pub open spec fn event_name(e: EventType) -> Seq<char> {
    match e {
        EventType::TransferOut => "transfer_out"@,
        EventType::TransferIn => "transfer_in"@,
        EventType::Adjust => "adjust"@,
        EventType::Earn => "earn"@,
        EventType::Redeem => "redeem"@,
    }
}

/// The event type whose name is exactly `s`, if any.
pub open spec fn event_named(s: Seq<char>) -> Option<EventType> {
    if s == "transfer_out"@ {
        Some(EventType::TransferOut)
    } else if s == "transfer_in"@ {
        Some(EventType::TransferIn)
    } else if s == "adjust"@ {
        Some(EventType::Adjust)
    } else if s == "earn"@ {
        Some(EventType::Earn)
    } else if s == "redeem"@ {
        Some(EventType::Redeem)
    } else {
        None
    }
}

/// What `str::to_lowercase` returns for `s`.
pub uninterp spec fn lowercase_of(s: Seq<char>) -> Seq<char>;

/// Relies on `str::to_lowercase`: the lower-case form of `s`, which depends on
/// the characters of `s` alone.
#[verifier::external_body]
fn lowercase(s: &str) -> (r: String)
    ensures
        r@ == lowercase_of(s@),
{
    s.to_lowercase()
}

impl TransferStatus {
    /// The lower-case name of the status.
    pub fn as_str(&self) -> (r: &'static str)
        ensures
            r@ == status_name(*self),
    {
        match self {
            TransferStatus::Pending => "pending",
            TransferStatus::Processing => "processing",
            TransferStatus::Completed => "completed",
            TransferStatus::Failed => "failed",
            TransferStatus::Cancelled => "cancelled",
            TransferStatus::Reversed => "reversed",
        }
    }

    /// The status named exactly `s` (already in lower case).
    pub fn from_name(s: &str) -> (r: Option<TransferStatus>)
        ensures
            r == status_named(s@),
    {
        if crate::text::same_text(s, "pending") {
            Some(TransferStatus::Pending)
        } else if crate::text::same_text(s, "processing") {
            Some(TransferStatus::Processing)
        } else if crate::text::same_text(s, "completed") {
            Some(TransferStatus::Completed)
        } else if crate::text::same_text(s, "failed") {
            Some(TransferStatus::Failed)
        } else if crate::text::same_text(s, "cancelled") {
            Some(TransferStatus::Cancelled)
        } else if crate::text::same_text(s, "reversed") {
            Some(TransferStatus::Reversed)
        } else {
            None
        }
    }

    /// Parses a status name in any letter case.
    pub fn from_str(s: &str) -> (r: Result<TransferStatus, String>)
        ensures
            match status_named(lowercase_of(s@)) {
                Some(st) => r == Ok::<TransferStatus, String>(st),
                None => r is Err && r->Err_0@ == "Invalid transfer status: "@ + s@,
            },
    {
        let lower = lowercase(s);
        match TransferStatus::from_name(lower.as_str()) {
            Some(st) => Ok(st),
            None => Err("Invalid transfer status: ".to_owned().concat(s)),
        }
    }

    /// Whether no further transition leaves this status.
    pub fn is_terminal(&self) -> (r: bool)
        ensures
            r == (*self == TransferStatus::Completed || *self == TransferStatus::Failed),
    {
        match self {
            TransferStatus::Completed | TransferStatus::Failed => true,
            _ => false,
        }
    }
}

impl EventType {
    /// The snake-case name of the event type.
    pub fn as_str(&self) -> (r: &'static str)
        ensures
            r@ == event_name(*self),
    {
        match self {
            EventType::TransferOut => "transfer_out",
            EventType::TransferIn => "transfer_in",
            EventType::Adjust => "adjust",
            EventType::Earn => "earn",
            EventType::Redeem => "redeem",
        }
    }

    /// Parses an event type from its exact snake-case name.
    pub fn from_str(s: &str) -> (r: Result<EventType, String>)
        ensures
            match event_named(s@) {
                Some(e) => r == Ok::<EventType, String>(e),
                None => r is Err && r->Err_0@ == "Invalid event type: "@ + s@,
            },
    {
        if crate::text::same_text(s, "transfer_out") {
            Ok(EventType::TransferOut)
        } else if crate::text::same_text(s, "transfer_in") {
            Ok(EventType::TransferIn)
        } else if crate::text::same_text(s, "adjust") {
            Ok(EventType::Adjust)
        } else if crate::text::same_text(s, "earn") {
            Ok(EventType::Earn)
        } else if crate::text::same_text(s, "redeem") {
            Ok(EventType::Redeem)
        } else {
            Err("Invalid event type: ".to_owned().concat(s))
        }
    }
}

} // verus!
