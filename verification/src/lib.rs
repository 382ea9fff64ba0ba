//! Password administration for Norx: the policy gate, the bounded audit trail
//! and the classes of failure that callers of the account database see.

pub mod bytes;
pub mod engine;
pub mod error;
pub mod output;
pub mod policy;
pub mod smoke;

pub use crate::engine::{Actor, AuditEvent, ChangeRequest, LockRequest, Operation, PasswdEngine};
pub use crate::engine::MAX_AUDIT_EVENTS;
pub use crate::error::{PasswdError, PasswordChangeError, StorageError};
pub use crate::policy::PasswordPolicy;
