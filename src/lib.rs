//! Point transfers between users, recorded in an append-only ledger.

pub mod status;
pub mod text;
pub mod time;
pub mod error;
pub mod transfer;
pub mod page;
pub mod ledger;
pub mod users;
pub mod transfer_store;
pub mod service;
pub mod laws;

pub use error::{ErrorKind, ErrorResponse, TransferError};
pub use ledger::{LedgerStore, PointLedger, PointLedgerDb};
pub use service::TransferService;
pub use status::{EventType, TransferStatus};
pub use time::Timestamp;
pub use transfer::{
    CreateTransferRequest, ListTransfersQuery, Transfer, TransferCreateResponse, TransferDb,
    TransferGetResponse, TransferListResponse,
};
pub use transfer_store::TransferStore;
pub use users::{UserAccount, UserDirectory};
