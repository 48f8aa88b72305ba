use crate::compression::LayoutError;
use vstd::prelude::*;

verus! {

/// Why an operation on a record was refused.
#[derive(Clone, Copy, Debug, PartialEq, Eq, Structural)]
pub enum ErrorCode {
    /// The caller is not the owner of the record.
    InvalidOwner,
    /// The new record does not carry the identifier of the old one.
    InvalidAssetId,
    /// The rightmost index could not be read from the tree's account.
    LayoutReadError(LayoutError),
    /// No identifier can be derived for the place that the record would take.
    AddressNotFound,
    /// Bytes tagged as a record are not the encoding of one.
    DecodeError,
}

} // verus!
