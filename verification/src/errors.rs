use vstd::prelude::*;

verus! {

/// The failure kinds an operation can surface to its caller. Every
/// precondition is checked before any state mutation or transfer is
/// issued, so an error always means the marketplace is unchanged.
#[derive(Clone, Copy, PartialEq, Eq, Structural, Debug)]
pub enum ErrorCode {
    /// Registry creation was asked for a fee above the allowed ceiling.
    FeeTooHigh,
    /// A listing price outside the allowed `[MIN_PRICE, MAX_PRICE]` range.
    PriceOutOfRange,
    /// The listing key already has an active listing.
    DuplicateListing,
    /// No active listing exists under the given key.
    InactiveListing,
    /// The caller is not the listing's seller.
    InvalidAccess,
    /// The tendered amount differs from the listing price.
    IncorrectAmount,
    /// A token purchase tendered a different token than the listing asks.
    IncorrectTokenType,
    /// The purchase path (native or token) does not match the listing.
    IncorrectPaymentMethod,
    /// The ledger reported an insufficient balance on a transfer leg.
    InsufficientFunds,
    /// The ledger reported failure on a transfer leg.
    TransferFailed,
    /// The listing changed between planning and finishing an operation.
    ConcurrentModification,
}

/// The failure kinds the external ledger can report for a transfer leg.
#[derive(Clone, Copy, PartialEq, Eq, Structural, Debug)]
pub enum TransferError {
    InsufficientFunds,
    Unauthorized,
    InvalidAccount,
}

/// How a single-leg transfer failure surfaces to the caller: an
/// insufficient balance is propagated as such, any other ledger failure
/// is reported as a failed transfer.
pub open spec fn spec_transfer_error_code(e: TransferError) -> ErrorCode {
    match e {
        TransferError::InsufficientFunds => ErrorCode::InsufficientFunds,
        TransferError::Unauthorized => ErrorCode::TransferFailed,
        TransferError::InvalidAccount => ErrorCode::TransferFailed,
    }
}

pub fn transfer_error_code(e: TransferError) -> (c: ErrorCode)
    ensures
        c == spec_transfer_error_code(e),
{
    match e {
        TransferError::InsufficientFunds => ErrorCode::InsufficientFunds,
        TransferError::Unauthorized => ErrorCode::TransferFailed,
        TransferError::InvalidAccount => ErrorCode::TransferFailed,
    }
}

} // verus!
