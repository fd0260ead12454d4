use vstd::prelude::*;

verus! {

/// Every way a create or update request can be refused.
///
/// All errors are terminal for the invocation: the first violated
/// precondition wins and nothing is written.
#[derive(Debug, Clone, Copy, PartialEq, Eq, Structural)]
pub enum ReviewError {
    /// The caller did not prove control over the owner identity.
    Unauthorized,
    /// The target slot is not the address derived from (owner, title).
    AddressMismatch,
    /// The slot already holds a record whose initialized flag is set.
    AlreadyInitialized,
    /// The slot decodes to a record that was never marked initialized.
    UninitializedAccount,
    /// The rating is outside 1..=5.
    InvalidRating,
    /// The serialized record would not fit in the slot's fixed capacity.
    RecordTooLarge,
    /// The slot holds bytes that do not decode to a record.
    CorruptState,
    /// The slot is not owned by this program.
    IllegalOwner,
    /// The request bytes do not decode to an operation.
    InvalidInstruction,
}

} // verus!
