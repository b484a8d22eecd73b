use vstd::prelude::*;

verus! {

/// Why the Authority Verifier refused a caller.
#[derive(Clone, Copy, Debug, PartialEq, Eq, Structural)]
pub enum AuthorizationError {
    /// The caller did not sign the operation.
    MissingAuthentication,
    /// The caller signed, but is not the account's recorded owner.
    OwnerMismatch,
}

/// Why the Invocation Trust Gate refused, or what the delegated call reported.
#[derive(Clone, Copy, Debug, PartialEq, Eq, Structural)]
pub enum TrustError {
    /// The target program is not in the allow-list.
    UntrustedTarget,
    /// A referenced account is not owned by the target program.
    WrongAccountOwner,
    /// A token account holds tokens of another mint than the one named.
    MintMismatch,
    /// The program presented as the token program is not the canonical one.
    InvalidTransferProgram,
    /// The presented signer is not the address derived from the configured seed.
    InvalidDerivedSigner,
    /// The delegated call ran and reported a failure.
    DelegatedCallFailed,
}

/// Why a checked balance computation was refused.
#[derive(Clone, Copy, Debug, PartialEq, Eq, Structural)]
pub enum ArithmeticError {
    Overflow,
    Underflow,
    InvalidRate,
}

/// Every error that a guarded operation can surface to the host.
#[derive(Clone, Copy, Debug, PartialEq, Eq, Structural)]
pub enum CustomError {
    Authorization(AuthorizationError),
    Trust(TrustError),
    Arithmetic(ArithmeticError),
    /// The pool is already in flight: a nested entry was attempted.
    ReentrantCall,
    /// A transfer of nothing was requested.
    InvalidAmount,
}

} // verus!
