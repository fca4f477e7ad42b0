//! The escrow itself: its stored state and the operations on it.

use vstd::prelude::*;
use crate::errors::EscrowError;
use crate::model::{DelegationState, EscrowModel, PlanModel, TOKEN_RESERVE};
use crate::remote::{read_flags, RemoteResult};
use crate::shares::{scaled_share, share_of};
use crate::table::{
    accounts_of, all_distinct, assign, entries_view, lemma_balance_bounded, lemma_with_balance,
    lookup, total,
};

verus! {

/// What the host knows of the call that is being served.
#[derive(Clone, Debug, PartialEq, Eq)]
pub struct CallContext {
    /// The account of the escrow itself.
    pub current_account_id: String,
    /// The account that signed the transaction.
    pub signer_account_id: String,
    /// The account that made this very call.
    pub predecessor_account_id: String,
    /// The money that came with the call.
    pub attached_deposit: u128,
    /// The time of the block in which the call runs.
    pub block_timestamp: u64,
}

/// The record of an accepted deposit, for the host's log.
#[derive(Clone, Debug, PartialEq, Eq)]
pub struct DepositRecord {
    /// Who deposited.
    pub account: String,
    /// How much.
    pub amount: u128,
    /// The depositor's balance before the deposit.
    pub previous_balance: u128,
    /// The depositor's balance after it.
    pub new_balance: u128,
    /// The funds held after it.
    pub total_funds: u128,
}

/// A payment that the host is to make.
#[derive(Clone, Debug, PartialEq, Eq)]
pub struct Transfer {
    /// Who is paid.
    pub destination: String,
    /// How much.
    pub amount: u128,
}

/// The two remote calls that the host is to make for a delegation, side by
/// side. When both have settled, whatever their outcome, the host calls
/// `on_delegate_callback` at `callback_account` with `dao_name` and the two
/// results, that of the governance service first.
#[derive(Clone, Debug, PartialEq, Eq)]
pub struct DelegationPlan {
    /// The service that creates the governance entity.
    pub dao_factory: String,
    /// The name that the entity is to get.
    pub dao_name: String,
    /// The money that goes with the creation of the entity.
    pub dao_deposit: u128,
    /// The depositors, who become the entity's members.
    pub members: Vec<String>,
    /// The service that creates the token.
    pub token_factory: String,
    /// The money that goes with the creation of the token.
    pub token_deposit: u128,
    /// The account that is called back: the escrow's own.
    pub callback_account: String,
}

impl View for DelegationPlan {
    type V = PlanModel;

    open spec fn view(&self) -> PlanModel {
        PlanModel {
            dao_factory: self.dao_factory@,
            dao_name: self.dao_name@,
            dao_deposit: self.dao_deposit as nat,
            members: Seq::new(self.members@.len(), |i: int| self.members@[i]@),
            token_factory: self.token_factory@,
            token_deposit: self.token_deposit as nat,
            callback_account: self.callback_account@,
        }
    }
}

/// The whole state of an escrow as plain values, as the host stores it
/// between two calls.
#[derive(Clone, Debug, PartialEq, Eq)]
pub struct EscrowRecord {
    /// Every account with its balance, in the order of first appearance.
    pub deposits: Vec<(String, u128)>,
    /// The deadline.
    pub expires_at: u64,
    /// The funds held.
    pub total_funds: u128,
    /// The funding goal.
    pub min_funding_amount: u128,
    /// What is missing to the goal.
    pub unpaid_funding_amount: u128,
    /// The service that creates the governance entity and receives the funds.
    pub recipient_account_id: String,
    /// The service that creates the token.
    pub token_factory_account_id: String,
    /// Where the description of the project is found.
    pub metadata_url: String,
    /// Whether the funds were handed over.
    pub delegation: DelegationState,
    /// The name of the governance entity, once it exists.
    pub dao_name: Option<String>,
}

impl View for EscrowRecord {
    type V = EscrowModel;

    open spec fn view(&self) -> EscrowModel {
        EscrowModel {
            deposits: entries_view(self.deposits@),
            expires_at: self.expires_at as nat,
            total_funds: self.total_funds as nat,
            funding_limit: self.min_funding_amount as nat,
            unpaid: self.unpaid_funding_amount as nat,
            recipient: self.recipient_account_id@,
            token_factory: self.token_factory_account_id@,
            metadata_url: self.metadata_url@,
            delegation: self.delegation,
            dao_name: match self.dao_name {
                Some(name) => Some(name@),
                None => None,
            },
        }
    }
}

/// A conditional escrow.
#[derive(Debug)]
pub struct ConditionalEscrow {
    deposits: Vec<(String, u128)>,
    expires_at: u64,
    total_funds: u128,
    min_funding_amount: u128,
    unpaid_funding_amount: u128,
    recipient_account_id: String,
    token_factory_account_id: String,
    metadata_url: String,
    delegation: DelegationState,
    dao_name: Option<String>,
}

impl View for ConditionalEscrow {
    type V = EscrowModel;

    closed spec fn view(&self) -> EscrowModel {
        EscrowModel {
            deposits: entries_view(self.deposits@),
            expires_at: self.expires_at as nat,
            total_funds: self.total_funds as nat,
            funding_limit: self.min_funding_amount as nat,
            unpaid: self.unpaid_funding_amount as nat,
            recipient: self.recipient_account_id@,
            token_factory: self.token_factory_account_id@,
            metadata_url: self.metadata_url@,
            delegation: self.delegation,
            dao_name: match self.dao_name {
                Some(name) => Some(name@),
                None => None,
            },
        }
    }
}

/// Why the set-up of an escrow is refused, if it is.
pub open spec fn new_refusal(state_exists: bool, funding_limit: nat) -> Option<EscrowError> {
    if state_exists {
        Some(EscrowError::AlreadyInitialized)
    } else if funding_limit < TOKEN_RESERVE {
        Some(EscrowError::InsufficientFundsLimit)
    } else {
        None
    }
}

impl ConditionalEscrow {
    /// The escrow is in a state that the operations can reach.
    pub open spec fn wf(&self) -> bool {
        self@.valid()
    }

    /// Sets up an escrow with no deposits. `state_exists` tells whether the
    /// host already holds an escrow under this account.
    pub fn new(
        state_exists: bool,
        expires_at: u64,
        min_funding_amount: u128,
        recipient_account_id: String,
        token_factory_account_id: String,
        metadata_url: String,
    ) -> (res: Result<ConditionalEscrow, EscrowError>)
        ensures
            match res {
                Ok(escrow) => {
                    &&& new_refusal(state_exists, min_funding_amount as nat) is None
                    &&& escrow.wf()
                    &&& escrow@ == EscrowModel::initial(
                        expires_at as nat,
                        min_funding_amount as nat,
                        recipient_account_id@,
                        token_factory_account_id@,
                        metadata_url@,
                    )
                },
                Err(e) => new_refusal(state_exists, min_funding_amount as nat) == Some(e),
            },
    {
        if state_exists {
            return Err(EscrowError::AlreadyInitialized);
        }
        if min_funding_amount < TOKEN_RESERVE {
            return Err(EscrowError::InsufficientFundsLimit);
        }
        let escrow = ConditionalEscrow {
            deposits: Vec::new(),
            expires_at,
            total_funds: 0,
            min_funding_amount,
            unpaid_funding_amount: min_funding_amount,
            recipient_account_id,
            token_factory_account_id,
            metadata_url,
            delegation: DelegationState::NotStarted,
            dao_name: None,
        };
        assert(escrow@.deposits =~= Seq::empty());
        Ok(escrow)
    }

    /// Takes up a stored state. A state that the operations cannot have left
    /// behind is refused.
    pub fn restore(record: EscrowRecord) -> (res: Result<ConditionalEscrow, EscrowError>)
        ensures
            match res {
                Ok(escrow) => record@.valid() && escrow.wf() && escrow@ == record@,
                Err(e) => e == EscrowError::CorruptState && !record@.valid(),
            },
    {
        if !all_distinct(&record.deposits) {
            return Err(EscrowError::CorruptState);
        }
        if record.min_funding_amount < TOKEN_RESERVE {
            return Err(EscrowError::CorruptState);
        }
        let sum = match total(&record.deposits) {
            Some(amount) => amount,
            None => {
                return Err(EscrowError::CorruptState);
            },
        };
        if sum > record.min_funding_amount || record.unpaid_funding_amount
            != record.min_funding_amount - sum {
            return Err(EscrowError::CorruptState);
        }
        if record.total_funds > sum {
            return Err(EscrowError::CorruptState);
        }
        let created = record.delegation == DelegationState::Created;
        if !created && record.total_funds != sum {
            return Err(EscrowError::CorruptState);
        }
        if created != record.dao_name.is_some() {
            return Err(EscrowError::CorruptState);
        }
        Ok(
            ConditionalEscrow {
                deposits: record.deposits,
                expires_at: record.expires_at,
                total_funds: record.total_funds,
                min_funding_amount: record.min_funding_amount,
                unpaid_funding_amount: record.unpaid_funding_amount,
                recipient_account_id: record.recipient_account_id,
                token_factory_account_id: record.token_factory_account_id,
                metadata_url: record.metadata_url,
                delegation: record.delegation,
                dao_name: record.dao_name,
            },
        )
    }

    /// The state as plain values, for the host to store.
    pub fn snapshot(&self) -> (record: EscrowRecord)
        ensures
            record@ == self@,
    {
        EscrowRecord {
            deposits: self.get_deposits(),
            expires_at: self.expires_at,
            total_funds: self.total_funds,
            min_funding_amount: self.min_funding_amount,
            unpaid_funding_amount: self.unpaid_funding_amount,
            recipient_account_id: self.recipient_account_id.clone(),
            token_factory_account_id: self.token_factory_account_id.clone(),
            metadata_url: self.metadata_url.clone(),
            delegation: self.delegation,
            dao_name: self.get_dao_name(),
        }
    }

    /// The balance of `payee`, 0 for an account that never deposited.
    pub fn deposits_of(&self, payee: &String) -> (amount: u128)
        requires
            self.wf(),
        ensures
            amount == self@.deposits_of(payee@),
    {
        lookup(&self.deposits, payee)
    }

    /// The share of `payee` in the funding goal, in thousandths, rounded
    /// down.
    pub fn get_shares_of(&self, payee: &String) -> (share: u128)
        requires
            self.wf(),
        ensures
            share == share_of(self@.deposits_of(payee@), self@.funding_limit),
            share <= 1000,
    {
        let balance = lookup(&self.deposits, payee);
        proof {
            lemma_balance_bounded(self@.deposits, payee@);
        }
        scaled_share(balance, self.min_funding_amount)
    }

    /// Every account with its balance, in the order of first appearance.
    pub fn get_deposits(&self) -> (all: Vec<(String, u128)>)
        ensures
            entries_view(all@) == self@.deposits,
    {
        let mut all: Vec<(String, u128)> = Vec::new();
        let mut i: usize = 0;
        while i < self.deposits.len()
            invariant
                i <= self.deposits.len(),
                all.len() == i,
                forall|k: int|
                    0 <= k < i ==> (#[trigger] all[k]).0@ == self.deposits[k].0@ && all[k].1
                        == self.deposits[k].1,
            decreases self.deposits.len() - i,
        {
            all.push((self.deposits[i].0.clone(), self.deposits[i].1));
            i += 1;
        }
        assert(entries_view(all@) =~= self@.deposits);
        all
    }

    /// The funds held.
    pub fn get_total_funds(&self) -> (amount: u128)
        ensures
            amount == self@.total_funds,
    {
        self.total_funds
    }

    /// The deadline.
    pub fn get_expiration_date(&self) -> (at: u64)
        ensures
            at == self@.expires_at,
    {
        self.expires_at
    }

    /// The funding goal.
    pub fn get_min_funding_amount(&self) -> (amount: u128)
        ensures
            amount == self@.funding_limit,
    {
        self.min_funding_amount
    }

    /// What is missing to the goal.
    pub fn get_unpaid_funding_amount(&self) -> (amount: u128)
        ensures
            amount == self@.unpaid,
    {
        self.unpaid_funding_amount
    }

    /// The service that creates the governance entity and receives the funds.
    pub fn get_recipient_account_id(&self) -> (account: String)
        ensures
            account@ == self@.recipient,
    {
        self.recipient_account_id.clone()
    }

    /// The service that creates the token.
    pub fn get_token_factory_account_id(&self) -> (account: String)
        ensures
            account@ == self@.token_factory,
    {
        self.token_factory_account_id.clone()
    }

    /// Where the description of the project is found.
    pub fn get_metadata_url(&self) -> (url: String)
        ensures
            url@ == self@.metadata_url,
    {
        self.metadata_url.clone()
    }

    /// The name of the governance entity, once a delegation has succeeded.
    pub fn get_dao_name(&self) -> (name: Option<String>)
        ensures
            match name {
                Some(text) => self@.dao_name == Some(text@),
                None => self@.dao_name is None,
            },
    {
        match &self.dao_name {
            Some(text) => Some(text.clone()),
            None => None,
        }
    }

    /// Whether a delegation has succeeded.
    pub fn is_dao_created(&self) -> (created: bool)
        ensures
            created == (self@.delegation == DelegationState::Created),
    {
        self.delegation == DelegationState::Created
    }

    /// Whether the deadline has passed at the time `now`.
    pub fn has_contract_expired(&self, now: u64) -> (expired: bool)
        ensures
            expired == self@.has_expired(now as nat),
    {
        now >= self.expires_at
    }

    /// Whether the goal is met.
    pub fn is_funding_minimum_reached(&self) -> (reached: bool)
        ensures
            reached == self@.funding_reached(),
    {
        self.total_funds >= self.min_funding_amount
    }

    /// Whether a deposit is in order at the time `now`.
    pub fn is_deposit_allowed(&self, now: u64) -> (allowed: bool)
        ensures
            allowed == self@.deposit_allowed(now as nat),
    {
        !self.has_contract_expired(now) && !self.is_funding_minimum_reached()
    }

    /// Whether a withdrawal is in order at the time `now`.
    pub fn is_withdrawal_allowed(&self, now: u64) -> (allowed: bool)
        ensures
            allowed == self@.withdrawal_allowed(now as nat),
    {
        self.has_contract_expired(now) && !self.is_funding_minimum_reached()
    }

    /// Whether a delegation is in order at the time `now`.
    pub fn is_delegation_allowed(&self, now: u64) -> (allowed: bool)
        ensures
            allowed == self@.delegation_allowed(now as nat),
    {
        !self.is_deposit_allowed(now) && !self.is_withdrawal_allowed(now)
    }

    /// Takes the money attached to the call as a deposit of the signer. The
    /// deposit is accepted whole or refused: it is never cut down to what is
    /// missing to the goal.
    pub fn deposit(&mut self, ctx: &CallContext) -> (res: Result<DepositRecord, EscrowError>)
        requires
            old(self).wf(),
        ensures
            final(self).wf(),
            match res {
                Ok(record) => {
                    &&& old(self)@.deposit_refusal(
                        ctx.current_account_id@,
                        ctx.signer_account_id@,
                        ctx.attached_deposit as nat,
                        ctx.block_timestamp as nat,
                    ) is None
                    &&& final(self)@ == old(self)@.after_deposit(
                        ctx.signer_account_id@,
                        ctx.attached_deposit as nat,
                    )
                    &&& final(self)@.deposits_of(ctx.signer_account_id@) == old(self)@.deposits_of(
                        ctx.signer_account_id@,
                    ) + ctx.attached_deposit
                    &&& final(self)@.total_funds == old(self)@.total_funds + ctx.attached_deposit
                    &&& final(self)@.unpaid == old(self)@.unpaid - ctx.attached_deposit
                    &&& record.account@ == ctx.signer_account_id@
                    &&& record.amount == ctx.attached_deposit
                    &&& record.previous_balance == old(self)@.deposits_of(ctx.signer_account_id@)
                    &&& record.new_balance == record.previous_balance + record.amount
                    &&& record.total_funds == old(self)@.total_funds + record.amount
                },
                Err(e) => {
                    &&& old(self)@.deposit_refusal(
                        ctx.current_account_id@,
                        ctx.signer_account_id@,
                        ctx.attached_deposit as nat,
                        ctx.block_timestamp as nat,
                    ) == Some(e)
                    &&& *final(self) == *old(self)
                },
            },
    {
        if ctx.current_account_id == ctx.signer_account_id {
            return Err(EscrowError::OwnerShouldNotDeposit);
        }
        let amount = ctx.attached_deposit;
        if amount == 0 {
            return Err(EscrowError::DepositShouldNotBeZero);
        }
        if !self.is_deposit_allowed(ctx.block_timestamp) {
            return Err(EscrowError::DepositNotAllowed);
        }
        if amount > self.unpaid_funding_amount {
            return Err(EscrowError::DepositExceedsLimit);
        }
        let previous_balance = lookup(&self.deposits, &ctx.signer_account_id);
        proof {
            lemma_balance_bounded(self@.deposits, ctx.signer_account_id@);
            lemma_with_balance(
                self@.deposits,
                ctx.signer_account_id@,
                (previous_balance + amount) as nat,
            );
        }
        let new_balance = previous_balance + amount;
        assign(&mut self.deposits, &ctx.signer_account_id, new_balance);
        self.total_funds = self.total_funds + amount;
        self.unpaid_funding_amount = self.unpaid_funding_amount - amount;
        Ok(
            DepositRecord {
                account: ctx.signer_account_id.clone(),
                amount,
                previous_balance,
                new_balance,
                total_funds: self.total_funds,
            },
        )
    }

    /// Gives the signer's balance back and sets it to 0. The payment is
    /// returned for the host to make. An account without a balance is paid 0.
    pub fn withdraw(&mut self, ctx: &CallContext) -> (res: Result<Transfer, EscrowError>)
        requires
            old(self).wf(),
        ensures
            final(self).wf(),
            match res {
                Ok(payment) => {
                    &&& old(self)@.withdraw_refusal(
                        ctx.signer_account_id@,
                        ctx.block_timestamp as nat,
                    ) is None
                    &&& final(self)@ == old(self)@.after_withdraw(ctx.signer_account_id@)
                    &&& final(self)@.deposits_of(ctx.signer_account_id@) == 0
                    &&& final(self)@.total_funds == old(self)@.total_funds - payment.amount
                    &&& final(self)@.unpaid == old(self)@.unpaid + payment.amount
                    &&& payment.destination@ == ctx.signer_account_id@
                    &&& payment.amount == old(self)@.deposits_of(ctx.signer_account_id@)
                },
                Err(e) => {
                    &&& old(self)@.withdraw_refusal(
                        ctx.signer_account_id@,
                        ctx.block_timestamp as nat,
                    ) == Some(e)
                    &&& *final(self) == *old(self)
                },
            },
    {
        if !self.is_withdrawal_allowed(ctx.block_timestamp) {
            return Err(EscrowError::WithdrawalNotAllowed);
        }
        let payment = lookup(&self.deposits, &ctx.signer_account_id);
        if payment > self.total_funds {
            return Err(EscrowError::WithdrawalExceedsFunds);
        }
        proof {
            lemma_balance_bounded(self@.deposits, ctx.signer_account_id@);
            lemma_with_balance(self@.deposits, ctx.signer_account_id@, 0);
        }
        assign(&mut self.deposits, &ctx.signer_account_id, 0);
        self.total_funds = self.total_funds - payment;
        self.unpaid_funding_amount = self.unpaid_funding_amount + payment;
        Ok(Transfer { destination: ctx.signer_account_id.clone(), amount: payment })
    }

    /// Plans the hand-over of the funds to a governance entity named
    /// `dao_name`. Nothing is changed: the funds stay on the books until the
    /// reconciliation.
    pub fn delegate_funds(&self, ctx: &CallContext, dao_name: String) -> (res: Result<
        DelegationPlan,
        EscrowError,
    >)
        requires
            self.wf(),
        ensures
            match res {
                Ok(plan) => {
                    &&& self@.delegate_refusal(ctx.block_timestamp as nat) is None
                    &&& plan@ == self@.delegation_plan(ctx.current_account_id@, dao_name@)
                },
                Err(e) => self@.delegate_refusal(ctx.block_timestamp as nat) == Some(e),
            },
    {
        if !self.is_delegation_allowed(ctx.block_timestamp) {
            return Err(EscrowError::DelegateNotAllowed);
        }
        if self.total_funds < TOKEN_RESERVE {
            return Err(EscrowError::TotalFundsOverflow);
        }
        let mut members: Vec<String> = Vec::new();
        let mut i: usize = 0;
        while i < self.deposits.len()
            invariant
                i <= self.deposits.len(),
                members.len() == i,
                forall|k: int| 0 <= k < i ==> (#[trigger] members[k])@ == self.deposits[k].0@,
            decreases self.deposits.len() - i,
        {
            members.push(self.deposits[i].0.clone());
            i += 1;
        }
        let plan = DelegationPlan {
            dao_factory: self.recipient_account_id.clone(),
            dao_name,
            dao_deposit: self.total_funds - TOKEN_RESERVE,
            members,
            token_factory: self.token_factory_account_id.clone(),
            token_deposit: TOKEN_RESERVE,
            callback_account: ctx.current_account_id.clone(),
        };
        assert(plan@.members =~= accounts_of(self@.deposits));
        Ok(plan)
    }

    /// Reconciles the two remote calls of a delegation, the result of the
    /// governance service first. Where that service reports success, the
    /// funds leave the books and the entity's name is kept; the balances of
    /// the depositors stay as the record of who the members are. The answer
    /// says whether both services reported success. Once a delegation has
    /// succeeded, no further reconciliation is taken.
    pub fn on_delegate_callback(
        &mut self,
        ctx: &CallContext,
        dao_name: String,
        results: &Vec<RemoteResult>,
    ) -> (res: Result<bool, EscrowError>)
        requires
            old(self).wf(),
        ensures
            final(self).wf(),
            match old(self)@.callback_flags(
                ctx.current_account_id@,
                ctx.predecessor_account_id@,
                results@,
            ) {
                Ok(flags) => {
                    &&& res == Ok::<bool, EscrowError>(flags.0 && flags.1)
                    &&& final(self)@ == old(self)@.after_callback(dao_name@, flags.0)
                },
                Err(e) => {
                    &&& res == Err::<bool, EscrowError>(e)
                    &&& *final(self) == *old(self)
                },
            },
    {
        if ctx.predecessor_account_id != ctx.current_account_id {
            return Err(EscrowError::CallbackNotPrivate);
        }
        if self.delegation == DelegationState::Created {
            return Err(EscrowError::DaoAlreadyCreated);
        }
        match read_flags(results) {
            Err(e) => Err(e),
            Ok((dao_created, ft_created)) => {
                if dao_created {
                    self.total_funds = 0;
                    self.delegation = DelegationState::Created;
                    self.dao_name = Some(dao_name);
                }
                Ok(dao_created && ft_created)
            },
        }
    }
}

} // verus!
