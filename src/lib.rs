//! A single-account client core for an object-storage bucket: the stored
//! account and its audit log, the log-in / log-out decisions, the mapping of
//! local paths to bucket keys and back, and the audit events that every
//! object operation leaves behind.
//!
//! Network calls, the relational store and the file system are left to the
//! caller: the functions here take what those returned as plain values.
pub mod account;
pub mod error;
pub mod event;
pub mod objects;
pub mod paths;
pub mod session;
pub mod store;

pub use account::{AccountConfigQuery, AccountModel};
pub use error::{audit_failure, ClientError, DBError};
pub use event::{
    content_type_or_empty, format_size, reported_length, Event, EventKind, EventModel,
};
pub use objects::{
    content_type_for, list_keys, plan_delete, plan_download, plan_upload, record_delete,
    record_download, record_upload, DeletePlan, DownloadPlan, UploadPlan,
};
pub use paths::{base_name, join};
pub use session::confirm_log_in;
pub use store::{ConfigStore, StoreModel};
