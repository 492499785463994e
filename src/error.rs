use vstd::prelude::*;

verus! {

/// Every way in which an operation of the ledger can be refused.
#[derive(Clone, Copy, Debug, PartialEq, Eq, Structural)]
pub enum GaslessInfrastructureError {
    /// The permit's signature material is missing.
    InvalidSignature,
    /// The permit's expiry is not strictly in the future.
    ExpiredPermit,
    /// The permit carries no action, or its (user, service, nonce) triple is taken.
    InvalidNonce,
    /// The relayer has no authorization record, or it is revoked.
    UnauthorizedRelayer,
    /// The fee vault cannot cover the settlement or the withdrawal.
    InsufficientTreasury,
    /// The master treasury cannot cover the settlement.
    InsufficientMasterTreasury,
    /// The service is suspended.
    ServiceNotActive,
    /// The protocol is suspended.
    ProtocolNotActive,
    /// The settlement would cost more than the permit's fee ceiling.
    ExceedsMaxAmount,
    /// The target action is not on the service's whitelist, or the whitelist is empty.
    ProgramNotWhitelisted,
    /// The permit was executed before.
    PermitAlreadyExecuted,
    /// A fee rate above 100%, a zero amount or an empty service identifier.
    InvalidFeeParameters,
    /// The signer is not the service's owner.
    UnauthorizedServiceOwner,
    /// The signer is not the protocol's admin.
    UnauthorizedProtocolAdmin,
    /// The record to be created exists already.
    AlreadyInitialized,
    /// The protocol record has not been created.
    ProtocolNotInitialized,
    /// No service is registered under the identifier.
    ServiceNotFound,
    /// No permit is stored under the (user, service, nonce) triple.
    PermitNotFound,
    /// The permit's target action reported failure.
    TargetActionFailed,
    /// A settlement amount does not fit in 64 bits.
    ArithmeticOverflow,
}

} // verus!
