use vstd::prelude::*;

verus! {

/// Why a transfer operation was rejected.
#[derive(Clone, Copy, Debug, PartialEq, Eq, Structural)]
pub enum TransferError {
    /// The amount is zero.
    ZeroAmount,
    /// Sender and receiver are the same user.
    SameUser,
    /// The note is longer than the limit.
    NoteTooLong,
    /// The page number is zero.
    InvalidPage,
    /// The page size is outside the allowed range.
    InvalidPageSize,
    /// The sending user does not exist.
    FromUserNotFound,
    /// The receiving user does not exist.
    ToUserNotFound,
    /// The user whose transfers were asked for does not exist.
    UserNotFound,
    /// No transfer has the given idempotency key.
    TransferNotFound,
    /// The sender's balance is below the amount.
    InsufficientPoints,
    /// The receiver's balance would exceed the largest representable balance.
    BalanceOverflow,
    /// The idempotency key is already taken.
    DuplicateKey,
    /// The store has no identifier left for a new record.
    StoreFull,
}

/// Category of an error, as the transport layer reports it.
#[derive(Clone, Copy, Debug, PartialEq, Eq, Structural)]
pub enum ErrorKind {
    Validation,
    NotFound,
    InsufficientFunds,
    Storage,
}

/// The category of each error.
pub open spec fn kind_of(e: TransferError) -> ErrorKind {
    match e {
        TransferError::ZeroAmount | TransferError::SameUser | TransferError::NoteTooLong
        | TransferError::InvalidPage | TransferError::InvalidPageSize => ErrorKind::Validation,
        TransferError::FromUserNotFound | TransferError::ToUserNotFound
        | TransferError::UserNotFound | TransferError::TransferNotFound => ErrorKind::NotFound,
        TransferError::InsufficientPoints => ErrorKind::InsufficientFunds,
        TransferError::BalanceOverflow | TransferError::DuplicateKey
        | TransferError::StoreFull => ErrorKind::Storage,
    }
}

/// The human-readable message of each error.
pub open spec fn error_text(e: TransferError) -> Seq<char> {
    match e {
        TransferError::ZeroAmount => "Amount must be greater than 0"@,
        TransferError::SameUser => "Cannot transfer to the same user"@,
        TransferError::NoteTooLong => "Note cannot exceed 512 characters"@,
        TransferError::InvalidPage => "Page must be greater than 0"@,
        TransferError::InvalidPageSize => "Page size must be between 1 and 200"@,
        TransferError::FromUserNotFound => "From user not found"@,
        TransferError::ToUserNotFound => "To user not found"@,
        TransferError::UserNotFound => "User not found"@,
        TransferError::TransferNotFound => "Transfer not found"@,
        TransferError::InsufficientPoints => "Insufficient points"@,
        TransferError::BalanceOverflow => "Balance overflow"@,
        TransferError::DuplicateKey => "Idempotency key already exists"@,
        TransferError::StoreFull => "No identifier left for a new record"@,
    }
}

/// The HTTP status code of each error: validation 400 (a transfer to oneself
/// 422), missing records 404, insufficient points 409, storage 500.
pub open spec fn http_status_of(e: TransferError) -> u16 {
    if e == TransferError::SameUser {
        422
    } else {
        match kind_of(e) {
            ErrorKind::Validation => 400,
            ErrorKind::NotFound => 404,
            ErrorKind::InsufficientFunds => 409,
            ErrorKind::Storage => 500,
        }
    }
}

impl TransferError {
    /// The category of the error.
    pub fn kind(&self) -> (r: ErrorKind)
        ensures
            r == kind_of(*self),
    {
        match self {
            TransferError::ZeroAmount | TransferError::SameUser | TransferError::NoteTooLong
            | TransferError::InvalidPage | TransferError::InvalidPageSize => ErrorKind::Validation,
            TransferError::FromUserNotFound | TransferError::ToUserNotFound
            | TransferError::UserNotFound | TransferError::TransferNotFound => ErrorKind::NotFound,
            TransferError::InsufficientPoints => ErrorKind::InsufficientFunds,
            TransferError::BalanceOverflow | TransferError::DuplicateKey
            | TransferError::StoreFull => ErrorKind::Storage,
        }
    }

    /// The human-readable message of the error.
    pub fn message(&self) -> (r: String)
        ensures
            r@ == error_text(*self),
    {
        let s = match self {
            TransferError::ZeroAmount => "Amount must be greater than 0",
            TransferError::SameUser => "Cannot transfer to the same user",
            TransferError::NoteTooLong => "Note cannot exceed 512 characters",
            TransferError::InvalidPage => "Page must be greater than 0",
            TransferError::InvalidPageSize => "Page size must be between 1 and 200",
            TransferError::FromUserNotFound => "From user not found",
            TransferError::ToUserNotFound => "To user not found",
            TransferError::UserNotFound => "User not found",
            TransferError::TransferNotFound => "Transfer not found",
            TransferError::InsufficientPoints => "Insufficient points",
            TransferError::BalanceOverflow => "Balance overflow",
            TransferError::DuplicateKey => "Idempotency key already exists",
            TransferError::StoreFull => "No identifier left for a new record",
        };
        s.to_owned()
    }

    /// The HTTP status code under which the error is reported.
    pub fn http_status(&self) -> (r: u16)
        ensures
            r == http_status_of(*self),
    {
        if *self == TransferError::SameUser {
            422
        } else {
            match self.kind() {
                ErrorKind::Validation => 400,
                ErrorKind::NotFound => 404,
                ErrorKind::InsufficientFunds => 409,
                ErrorKind::Storage => 500,
            }
        }
    }

    /// The machine-readable error code of the error body.
    pub fn code(&self) -> (r: &'static str)
        ensures
            r@ == error_code_of(*self),
    {
        match self {
            TransferError::SameUser => "INVALID_TRANSFER",
            TransferError::InsufficientPoints => "INSUFFICIENT_POINTS",
            TransferError::FromUserNotFound | TransferError::ToUserNotFound
            | TransferError::UserNotFound => "USER_NOT_FOUND",
            TransferError::TransferNotFound => "TRANSFER_NOT_FOUND",
            TransferError::BalanceOverflow | TransferError::DuplicateKey
            | TransferError::StoreFull => "INTERNAL_ERROR",
            _ => "VALIDATION_ERROR",
        }
    }
}

/// The machine-readable code of each error.
pub open spec fn error_code_of(e: TransferError) -> Seq<char> {
    match e {
        TransferError::SameUser => "INVALID_TRANSFER"@,
        TransferError::InsufficientPoints => "INSUFFICIENT_POINTS"@,
        TransferError::FromUserNotFound | TransferError::ToUserNotFound
        | TransferError::UserNotFound => "USER_NOT_FOUND"@,
        TransferError::TransferNotFound => "TRANSFER_NOT_FOUND"@,
        TransferError::BalanceOverflow | TransferError::DuplicateKey
        | TransferError::StoreFull => "INTERNAL_ERROR"@,
        _ => "VALIDATION_ERROR"@,
    }
}

/// Body of an error response: a machine-readable code and a message.
pub struct ErrorResponse {
    pub error: String,
    pub message: String,
}

impl ErrorResponse {
    /// The response body that reports `e`.
    pub fn from_error(e: TransferError) -> (r: ErrorResponse)
        ensures
            r.error@ == error_code_of(e),
            r.message@ == error_text(e),
    {
        ErrorResponse { error: e.code().to_owned(), message: e.message() }
    }
}

} // verus!
