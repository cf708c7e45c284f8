//! Error taxonomy: storage-level failures and the coarse caller-facing
//! statuses that the handlers map every dependency failure onto.

use vstd::prelude::*;

verus! {

/// Caller-facing outcome of a failed request, mirroring the transport
/// status codes the backend answers with.
#[derive(Clone, Copy, Debug, PartialEq, Eq, Structural)]
pub enum Status {
    BadRequest,
    Unauthorized,
    NotFound,
    Conflict,
    Forbidden,
    InternalError,
}

/// Failure of the storage collaborator, modelled after the relational
/// constraints the persisted tables carry.
#[derive(Clone, Copy, Debug, PartialEq, Eq, Structural)]
pub enum StorageError {
    /// An insert collided with a unique column (username, public key).
    UniqueViolation,
    /// An insert violated a column check (an unknown user role).
    CheckViolation,
}

} // verus!
