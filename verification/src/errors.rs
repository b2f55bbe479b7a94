use vstd::prelude::*;

verus! {

/// Every way an escrow operation can fail.
///
/// Authorization errors reject a caller before any mutation; validation and
/// funds errors reject inputs before any transfer; cryptographic errors cover
/// ask-signature and oracle-quorum failures; state errors mean the escrow is
/// not in the phase the requested transition needs; `ContractPaused` is the
/// operational error that blocks only `lock` and `settle`.
#[derive(Clone, Copy, PartialEq, Eq, Structural, Debug)]
pub enum TradeEscrowError {
    ContractPaused,
    InvalidDeadline,
    InvalidAskSignature,
    PriceExceedsMaximum,
    InsufficientFunds,
    CannotSettle,
    CannotRefund,
    InsufficientOracleSignatures,
    InvalidOracleSignatures,
    UnauthorizedGuardian,
    UnauthorizedAdmin,
    UnauthorizedRefund,
    InvalidSignatureFormat,
    SignatureVerificationFailed,
}

} // verus!
