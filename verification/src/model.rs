//! The escrow as a mathematical state machine: its state, the three phases of
//! its life, and what each operation does to the state.

use vstd::prelude::*;
use crate::errors::EscrowError;
use crate::remote::{flags_of, RemoteResult};
use crate::table::{accounts_of, balance_of, distinct_accounts, sum_of, with_balance, Entry};

verus! {

/// What is set aside of the funds for the creation of the token when the
/// funds are delegated. A funding limit below it is refused.
pub const TOKEN_RESERVE: u128 = 1_000_000_000_000_000_000_000_000;

/// Whether the funds were handed over.
#[derive(Clone, Copy, Debug, PartialEq, Eq, Structural)]
pub enum DelegationState {
    /// No delegation has succeeded so far.
    NotStarted,
    /// The governance entity exists and holds the funds.
    Created,
}

/// The state of an escrow.
pub struct EscrowModel {
    /// Account and balance of everyone who deposited or withdrew.
    pub deposits: Seq<Entry>,
    /// The deadline.
    pub expires_at: nat,
    /// The funds held.
    pub total_funds: nat,
    /// The funding goal.
    pub funding_limit: nat,
    /// What is missing to the goal.
    pub unpaid: nat,
    /// The service that creates the governance entity and receives the funds.
    pub recipient: Seq<char>,
    /// The service that creates the token.
    pub token_factory: Seq<char>,
    /// Where the description of the project is found.
    pub metadata_url: Seq<char>,
    /// Whether the funds were handed over.
    pub delegation: DelegationState,
    /// The name of the governance entity, once it exists.
    pub dao_name: Option<Seq<char>>,
}

/// What the host is told to do after a successful call of `delegate_funds`.
pub struct PlanModel {
    /// The service that creates the governance entity.
    pub dao_factory: Seq<char>,
    /// The name that the entity is to get.
    pub dao_name: Seq<char>,
    /// The money that goes with the creation of the entity.
    pub dao_deposit: nat,
    /// The depositors, who become the entity's members.
    pub members: Seq<Seq<char>>,
    /// The service that creates the token.
    pub token_factory: Seq<char>,
    /// The money that goes with the creation of the token.
    pub token_deposit: nat,
    /// The account that is called back when both calls have settled: the
    /// escrow's own.
    pub callback_account: Seq<char>,
}

impl EscrowModel {
    /// The state of a new escrow.
    pub open spec fn initial(
        expires_at: nat,
        funding_limit: nat,
        recipient: Seq<char>,
        token_factory: Seq<char>,
        metadata_url: Seq<char>,
    ) -> EscrowModel {
        EscrowModel {
            deposits: Seq::empty(),
            expires_at,
            total_funds: 0,
            funding_limit,
            unpaid: funding_limit,
            recipient,
            token_factory,
            metadata_url,
            delegation: DelegationState::NotStarted,
            dao_name: None,
        }
    }

    /// What holds of every state that the operations can reach.
    pub open spec fn valid(self) -> bool {
        &&& distinct_accounts(self.deposits)
        &&& TOKEN_RESERVE <= self.funding_limit <= u128::MAX
        &&& self.expires_at <= u64::MAX
        &&& sum_of(self.deposits) + self.unpaid == self.funding_limit
        &&& self.total_funds <= sum_of(self.deposits)
        &&& (self.delegation == DelegationState::NotStarted ==> self.total_funds == sum_of(
            self.deposits,
        ))
        &&& (self.delegation == DelegationState::Created <==> self.dao_name is Some)
    }

    /// The deadline has passed.
    pub open spec fn has_expired(self, now: nat) -> bool {
        now >= self.expires_at
    }

    /// The goal is met.
    pub open spec fn funding_reached(self) -> bool {
        self.total_funds >= self.funding_limit
    }

    /// The escrow is open: deposits come in.
    pub open spec fn deposit_allowed(self, now: nat) -> bool {
        !self.has_expired(now) && !self.funding_reached()
    }

    /// The escrow has failed: depositors take their money back.
    pub open spec fn withdrawal_allowed(self, now: nat) -> bool {
        self.has_expired(now) && !self.funding_reached()
    }

    /// The escrow has succeeded: the funds can be handed over.
    pub open spec fn delegation_allowed(self, now: nat) -> bool {
        !self.deposit_allowed(now) && !self.withdrawal_allowed(now)
    }

    /// The balance of an account.
    pub open spec fn deposits_of(self, who: Seq<char>) -> nat {
        balance_of(self.deposits, who)
    }

    /// Why a deposit is refused, if it is. The conditions are tested in this
    /// order, and the first that fails is reported.
    pub open spec fn deposit_refusal(
        self,
        owner: Seq<char>,
        payer: Seq<char>,
        amount: nat,
        now: nat,
    ) -> Option<EscrowError> {
        if owner == payer {
            Some(EscrowError::OwnerShouldNotDeposit)
        } else if amount == 0 {
            Some(EscrowError::DepositShouldNotBeZero)
        } else if !self.deposit_allowed(now) {
            Some(EscrowError::DepositNotAllowed)
        } else if amount > self.unpaid {
            Some(EscrowError::DepositExceedsLimit)
        } else {
            None
        }
    }

    /// The state after an accepted deposit.
    pub open spec fn after_deposit(self, payer: Seq<char>, amount: nat) -> EscrowModel {
        EscrowModel {
            deposits: with_balance(self.deposits, payer, self.deposits_of(payer) + amount),
            total_funds: self.total_funds + amount,
            unpaid: (self.unpaid - amount) as nat,
            ..self
        }
    }

    /// Why a withdrawal is refused, if it is.
    pub open spec fn withdraw_refusal(self, payee: Seq<char>, now: nat) -> Option<EscrowError> {
        if !self.withdrawal_allowed(now) {
            Some(EscrowError::WithdrawalNotAllowed)
        } else if self.deposits_of(payee) > self.total_funds {
            Some(EscrowError::WithdrawalExceedsFunds)
        } else {
            None
        }
    }

    /// The state after an accepted withdrawal.
    pub open spec fn after_withdraw(self, payee: Seq<char>) -> EscrowModel {
        EscrowModel {
            deposits: with_balance(self.deposits, payee, 0),
            total_funds: (self.total_funds - self.deposits_of(payee)) as nat,
            unpaid: self.unpaid + self.deposits_of(payee),
            ..self
        }
    }

    /// Why a delegation is refused, if it is.
    pub open spec fn delegate_refusal(self, now: nat) -> Option<EscrowError> {
        if !self.delegation_allowed(now) {
            Some(EscrowError::DelegateNotAllowed)
        } else if self.total_funds < TOKEN_RESERVE {
            Some(EscrowError::TotalFundsOverflow)
        } else {
            None
        }
    }

    /// What the host is to do for an accepted delegation under `name`, asked
    /// for at the escrow whose account is `owner`.
    pub open spec fn delegation_plan(self, owner: Seq<char>, name: Seq<char>) -> PlanModel {
        PlanModel {
            dao_factory: self.recipient,
            dao_name: name,
            dao_deposit: (self.total_funds - TOKEN_RESERVE) as nat,
            members: accounts_of(self.deposits),
            token_factory: self.token_factory,
            token_deposit: TOKEN_RESERVE as nat,
            callback_account: owner,
        }
    }

    /// What a reconciliation amounts to: the two flags, or the reason why it
    /// is aborted. Only the escrow itself may reconcile, and only as long as
    /// no delegation has succeeded.
    pub open spec fn callback_flags(
        self,
        owner: Seq<char>,
        caller: Seq<char>,
        results: Seq<RemoteResult>,
    ) -> Result<(bool, bool), EscrowError> {
        if caller != owner {
            Err(EscrowError::CallbackNotPrivate)
        } else if self.delegation == DelegationState::Created {
            Err(EscrowError::DaoAlreadyCreated)
        } else {
            flags_of(results)
        }
    }

    /// The state after a reconciliation in which the governance service
    /// answered `dao_created`.
    pub open spec fn after_callback(self, name: Seq<char>, dao_created: bool) -> EscrowModel {
        if dao_created {
            EscrowModel {
                total_funds: 0,
                delegation: DelegationState::Created,
                dao_name: Some(name),
                ..self
            }
        } else {
            self
        }
    }
}

} // verus!
