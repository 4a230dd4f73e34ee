use vstd::prelude::*;

verus! {

/// The ways an operation on a counter record can fail. Every failure is
/// terminal for the triggering call: the record and the payer are left
/// exactly as they were before the call.
#[derive(Clone, Copy, Debug, PartialEq, Eq, Structural)]
pub enum CounterError {
    /// Storage for a new record could not be reserved: either a record
    /// already occupies the target location, or the payer cannot fund
    /// the reservation.
    AllocationError,
    /// An increment was asked of a counter that already holds the
    /// maximum representable value.
    ArithmeticOverflow,
    /// A decrement was asked of a counter that already holds zero.
    ArithmeticUnderflow,
    /// A close was asked with a payer that does not match the record's
    /// required signing authority.
    AuthorizationError,
    /// An operation was asked of a storage location that holds no
    /// record, for instance one that was already closed.
    RecordNotFound,
}

} // verus!
