//! The conditions under which an operation of the escrow is refused.

use vstd::prelude::*;

verus! {

/// Why an operation was refused. A refused operation leaves the escrow as it
/// was before the call.
#[derive(Clone, Copy, Debug, PartialEq, Eq, Structural)]
pub enum EscrowError {
    /// The escrow was set up before.
    AlreadyInitialized,
    /// The funding limit is below what a delegation needs.
    InsufficientFundsLimit,
    /// The escrow's own account tried to deposit.
    OwnerShouldNotDeposit,
    /// A deposit came with no money attached.
    DepositShouldNotBeZero,
    /// Deposits are closed: the deadline has passed or the goal is met.
    DepositNotAllowed,
    /// The deposit is larger than what is still missing to the goal.
    DepositExceedsLimit,
    /// Withdrawals are closed: the deadline has not passed or the goal is met.
    WithdrawalNotAllowed,
    /// The payout is larger than the funds that the escrow still holds.
    WithdrawalExceedsFunds,
    /// Delegation is closed: deposits or withdrawals are still open.
    DelegateNotAllowed,
    /// The funds held do not cover the reserve for the token creation.
    TotalFundsOverflow,
    /// The reconciliation was called by another account than the escrow's own.
    CallbackNotPrivate,
    /// The reconciliation came after a delegation had already succeeded.
    DaoAlreadyCreated,
    /// The reconciliation did not get exactly two remote results.
    CallbackMethod,
    /// The remote call that creates the governance entity did not run.
    CreateDaoUnsuccessful,
    /// The remote call that creates the token did not run.
    CreateFtUnsuccessful,
    /// A remote result is neither `true` nor `false`.
    MalformedResult,
    /// A stored state is not one that the operations can reach.
    CorruptState,
}

/// The text by which a caller tells the conditions apart.
pub open spec fn error_code(e: EscrowError) -> Seq<char> {
    match e {
        EscrowError::AlreadyInitialized => "ERR_ALREADY_INITIALIZED"@,
        EscrowError::InsufficientFundsLimit => "ERR_INSUFFICIENT_FUNDS_LIMIT"@,
        EscrowError::OwnerShouldNotDeposit => "ERR_OWNER_SHOULD_NOT_DEPOSIT"@,
        EscrowError::DepositShouldNotBeZero => "ERR_DEPOSIT_SHOULD_NOT_BE_0"@,
        EscrowError::DepositNotAllowed => "ERR_DEPOSIT_NOT_ALLOWED"@,
        EscrowError::DepositExceedsLimit => "ERR_DEPOSIT_NOT_ALLOWED_BY_LIMIT"@,
        EscrowError::WithdrawalNotAllowed => "ERR_WITHDRAWAL_NOT_ALLOWED"@,
        EscrowError::WithdrawalExceedsFunds => "ERR_WITHDRAWAL_EXCEEDS_FUNDS"@,
        EscrowError::DelegateNotAllowed => "ERR_DELEGATE_NOT_ALLOWED"@,
        EscrowError::TotalFundsOverflow => "ERR_TOTAL_FUNDS_OVERFLOW"@,
        EscrowError::CallbackNotPrivate => "ERR_CALLBACK_NOT_PRIVATE"@,
        EscrowError::DaoAlreadyCreated => "ERR_DAO_ALREADY_CREATED"@,
        EscrowError::CallbackMethod => "ERR_CALLBACK_METHOD"@,
        EscrowError::CreateDaoUnsuccessful => "ERR_CREATE_DAO_UNSUCCESSFUL"@,
        EscrowError::CreateFtUnsuccessful => "ERR_CREATE_FT_UNSUCCESSFUL"@,
        EscrowError::MalformedResult => "ERR_MALFORMED_RESULT"@,
        EscrowError::CorruptState => "ERR_CORRUPT_STATE"@,
    }
}

impl EscrowError {
    /// The code of this condition.
    pub fn code(&self) -> (text: &'static str)
        ensures
            text@ == error_code(*self),
    {
        match self {
            EscrowError::AlreadyInitialized => "ERR_ALREADY_INITIALIZED",
            EscrowError::InsufficientFundsLimit => "ERR_INSUFFICIENT_FUNDS_LIMIT",
            EscrowError::OwnerShouldNotDeposit => "ERR_OWNER_SHOULD_NOT_DEPOSIT",
            EscrowError::DepositShouldNotBeZero => "ERR_DEPOSIT_SHOULD_NOT_BE_0",
            EscrowError::DepositNotAllowed => "ERR_DEPOSIT_NOT_ALLOWED",
            EscrowError::DepositExceedsLimit => "ERR_DEPOSIT_NOT_ALLOWED_BY_LIMIT",
            EscrowError::WithdrawalNotAllowed => "ERR_WITHDRAWAL_NOT_ALLOWED",
            EscrowError::WithdrawalExceedsFunds => "ERR_WITHDRAWAL_EXCEEDS_FUNDS",
            EscrowError::DelegateNotAllowed => "ERR_DELEGATE_NOT_ALLOWED",
            EscrowError::TotalFundsOverflow => "ERR_TOTAL_FUNDS_OVERFLOW",
            EscrowError::CallbackNotPrivate => "ERR_CALLBACK_NOT_PRIVATE",
            EscrowError::DaoAlreadyCreated => "ERR_DAO_ALREADY_CREATED",
            EscrowError::CallbackMethod => "ERR_CALLBACK_METHOD",
            EscrowError::CreateDaoUnsuccessful => "ERR_CREATE_DAO_UNSUCCESSFUL",
            EscrowError::CreateFtUnsuccessful => "ERR_CREATE_FT_UNSUCCESSFUL",
            EscrowError::MalformedResult => "ERR_MALFORMED_RESULT",
            EscrowError::CorruptState => "ERR_CORRUPT_STATE",
        }
    }
}

} // verus!
