use vstd::prelude::*;

verus! {

/// Why an operation was refused. Every refusal aborts the whole operation.
#[derive(Clone, Copy, Debug, PartialEq, Eq, Structural)]
pub enum SSSError {
    NameTooLong,
    SymbolTooLong,
    Unauthorized,
    SSS2Required,
    AlreadyBlacklisted,
    NotBlacklisted,
    TransferBlocked,
    SeizeNotBlacklisted,
    InsufficientBalance,
    PermanentDelegateNotEnabled,
    TransferHookNotEnabled,
    InvalidAmount,
    AccountFrozen,
    Overflow,
    InvalidRole,
}

} // verus!
