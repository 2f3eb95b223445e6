use vstd::prelude::*;

use crate::ident::PoolUuid;

verus! {

#[verifier::external_type_specification]
#[verifier::external_body]
pub struct ExUuidError(uuid::Error);

#[verifier::external_type_specification]
#[verifier::external_body]
pub struct ExIoError(std::io::Error);

/// The errors that this layer reports to its immediate caller.
#[derive(Debug)]
pub enum StratisError {
    /// A name that is not one of the unlock methods; it holds that name.
    InvalidUnlockMethod(String),
    /// A name that is not one of the report types; it holds that name.
    UnknownReport(String),
    /// A pool of this identifier is known under another name.
    PoolNameConflict(PoolUuid),
    /// A malformed identifier string.
    Uuid(uuid::Error),
    /// A path that could not be resolved.
    Io(std::io::Error),
}

} // verus!
