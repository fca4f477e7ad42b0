//! What holds of the escrow whatever the calls and their order.

use vstd::prelude::*;
use crate::errors::EscrowError;
use crate::model::{DelegationState, EscrowModel, TOKEN_RESERVE};
use crate::remote::{false_word, flag_of, true_word, RemoteResult};
use crate::table::{
    lemma_balance_bounded, lemma_slot_unique, lemma_with_balance, slot_of, sum_of, with_balance,
};

verus! {

/// Two states have the same deadline, goal and configured names.
pub open spec fn same_configuration(a: EscrowModel, b: EscrowModel) -> bool {
    &&& a.expires_at == b.expires_at
    &&& a.funding_limit == b.funding_limit
    &&& a.recipient == b.recipient
    &&& a.token_factory == b.token_factory
    &&& a.metadata_url == b.metadata_url
}

/// The life of an escrow has three phases, and at every moment it is in
/// exactly one of them: open to deposits, open to withdrawals, or open to
/// delegation. It is open to delegation exactly when the goal is met, before
/// the deadline as well as after it.
pub proof fn law_three_phases(m: EscrowModel, now: nat)
    ensures
        m.deposit_allowed(now) || m.withdrawal_allowed(now) || m.delegation_allowed(now),
        !(m.deposit_allowed(now) && m.withdrawal_allowed(now)),
        !(m.deposit_allowed(now) && m.delegation_allowed(now)),
        !(m.withdrawal_allowed(now) && m.delegation_allowed(now)),
        m.delegation_allowed(now) == m.funding_reached(),
        m.has_expired(now) ==> !m.deposit_allowed(now),
{
}

/// A new escrow is in a state that the operations can reach, holds nothing
/// and misses the whole goal.
pub proof fn law_initial_valid(
    expires_at: nat,
    funding_limit: nat,
    recipient: Seq<char>,
    token_factory: Seq<char>,
    metadata_url: Seq<char>,
)
    requires
        expires_at <= u64::MAX,
        TOKEN_RESERVE <= funding_limit <= u128::MAX,
    ensures
        EscrowModel::initial(
            expires_at,
            funding_limit,
            recipient,
            token_factory,
            metadata_url,
        ).valid(),
        forall|who: Seq<char>|
            #[trigger] EscrowModel::initial(
                expires_at,
                funding_limit,
                recipient,
                token_factory,
                metadata_url,
            ).deposits_of(who) == 0,
{
}

/// An accepted deposit raises the payer's balance and the funds held by the
/// amount, lowers what is missing to the goal by the amount, leaves every
/// other balance alone, and stays within the goal.
pub proof fn law_deposit_accounting(
    m: EscrowModel,
    owner: Seq<char>,
    payer: Seq<char>,
    amount: nat,
    now: nat,
)
    requires
        m.valid(),
        m.deposit_refusal(owner, payer, amount, now) is None,
    ensures
        m.after_deposit(payer, amount).valid(),
        m.after_deposit(payer, amount).deposits_of(payer) == m.deposits_of(payer) + amount,
        m.after_deposit(payer, amount).total_funds == m.total_funds + amount,
        m.after_deposit(payer, amount).unpaid + amount == m.unpaid,
        m.after_deposit(payer, amount).total_funds <= m.funding_limit,
        forall|other: Seq<char>|
            other != payer ==> #[trigger] m.after_deposit(payer, amount).deposits_of(other)
                == m.deposits_of(other),
{
    lemma_balance_bounded(m.deposits, payer);
    lemma_with_balance(m.deposits, payer, m.deposits_of(payer) + amount);
}

/// One deposit of a run: who pays, how much, and when.
pub struct DepositCall {
    /// The account that pays.
    pub payer: Seq<char>,
    /// The amount attached.
    pub amount: nat,
    /// The time of the call.
    pub now: nat,
}

/// The state after a run of deposits, if every one of them was accepted.
pub open spec fn after_deposits(m: EscrowModel, owner: Seq<char>, calls: Seq<DepositCall>) -> Option<
    EscrowModel,
>
    decreases calls.len(),
{
    if calls.len() == 0 {
        Some(m)
    } else {
        let call = calls.last();
        match after_deposits(m, owner, calls.drop_last()) {
            None => None,
            Some(mid) => if mid.deposit_refusal(owner, call.payer, call.amount, call.now) is None {
                Some(mid.after_deposit(call.payer, call.amount))
            } else {
                None
            },
        }
    }
}

/// The sum of the amounts of a run of deposits.
pub open spec fn deposited(calls: Seq<DepositCall>) -> nat
    decreases calls.len(),
{
    if calls.len() == 0 {
        0
    } else {
        deposited(calls.drop_last()) + calls.last().amount
    }
}

/// A run of accepted deposits raises the funds held by the sum of its
/// amounts and changes neither the goal nor the deadline.
pub proof fn law_deposits_add_up(m: EscrowModel, owner: Seq<char>, calls: Seq<DepositCall>)
    requires
        m.valid(),
        after_deposits(m, owner, calls) is Some,
    ensures
        after_deposits(m, owner, calls).unwrap().valid(),
        after_deposits(m, owner, calls).unwrap().total_funds == m.total_funds + deposited(calls),
        after_deposits(m, owner, calls).unwrap().funding_limit == m.funding_limit,
        after_deposits(m, owner, calls).unwrap().expires_at == m.expires_at,
    decreases calls.len(),
{
    if calls.len() > 0 {
        let call = calls.last();
        law_deposits_add_up(m, owner, calls.drop_last());
        let mid = after_deposits(m, owner, calls.drop_last()).unwrap();
        law_deposit_accounting(mid, owner, call.payer, call.amount, call.now);
    }
}

/// Once a run of deposits has brought the funds held to the goal, deposits
/// are closed at once, at every time, before the deadline too; and the next
/// deposit is refused as not allowed.
pub proof fn law_goal_closes_deposits(
    m: EscrowModel,
    owner: Seq<char>,
    calls: Seq<DepositCall>,
    now: nat,
)
    requires
        m.valid(),
        after_deposits(m, owner, calls) is Some,
        m.total_funds + deposited(calls) == m.funding_limit,
    ensures
        !after_deposits(m, owner, calls).unwrap().deposit_allowed(now),
        after_deposits(m, owner, calls).unwrap().delegation_allowed(now),
        forall|payer: Seq<char>, amount: nat|
            payer != owner && amount > 0 ==> #[trigger] after_deposits(
                m,
                owner,
                calls,
            ).unwrap().deposit_refusal(owner, payer, amount, now) == Some(
                EscrowError::DepositNotAllowed,
            ),
{
    law_deposits_add_up(m, owner, calls);
}

/// An accepted withdrawal pays out the payee's balance, sets it to 0, lowers
/// the funds held by the payment and raises what is missing to the goal by
/// it, and leaves every other balance alone.
pub proof fn law_withdraw_accounting(m: EscrowModel, payee: Seq<char>, now: nat)
    requires
        m.valid(),
        m.withdraw_refusal(payee, now) is None,
    ensures
        m.after_withdraw(payee).valid(),
        m.after_withdraw(payee).deposits_of(payee) == 0,
        m.after_withdraw(payee).total_funds + m.deposits_of(payee) == m.total_funds,
        m.after_withdraw(payee).unpaid == m.unpaid + m.deposits_of(payee),
        forall|other: Seq<char>|
            other != payee ==> #[trigger] m.after_withdraw(payee).deposits_of(other)
                == m.deposits_of(other),
{
    lemma_balance_bounded(m.deposits, payee);
    lemma_with_balance(m.deposits, payee, 0);
}

/// Withdrawing twice is withdrawing once: after an accepted withdrawal a
/// second one by the same account, at the same time or later, is accepted,
/// pays 0 and changes nothing.
pub proof fn law_withdraw_idempotent(m: EscrowModel, payee: Seq<char>, now: nat, later: nat)
    requires
        m.valid(),
        m.withdraw_refusal(payee, now) is None,
        now <= later,
    ensures
        m.after_withdraw(payee).withdraw_refusal(payee, later) is None,
        m.after_withdraw(payee).deposits_of(payee) == 0,
        m.after_withdraw(payee).after_withdraw(payee) == m.after_withdraw(payee),
{
    law_withdraw_accounting(m, payee, now);
    let once = m.after_withdraw(payee);
    lemma_with_balance(m.deposits, payee, 0);
    let k = slot_of(once.deposits, payee);
    assert(0 <= k < once.deposits.len() && once.deposits[k].0 == payee);
    lemma_slot_unique(once.deposits, k);
    assert(with_balance(once.deposits, payee, 0) =~= once.deposits);
}

/// A delegation is refused as not allowed exactly while deposits or
/// withdrawals are open, and refused for no other reason: in a state that the
/// operations can reach, the funds of an escrow that met its goal cover the
/// reserve.
pub proof fn law_delegate_only_when_allowed(m: EscrowModel, now: nat)
    requires
        m.valid(),
    ensures
        (m.deposit_allowed(now) || m.withdrawal_allowed(now)) <==> m.delegate_refusal(now) == Some(
            EscrowError::DelegateNotAllowed,
        ),
        m.delegation_allowed(now) <==> m.delegate_refusal(now) is None,
{
}

/// A planned delegation sends out exactly the funds held: the reserve with
/// the creation of the token, the rest with the creation of the governance
/// entity, whose members are the accounts of the table; and it is the escrow
/// itself that is called back.
pub proof fn law_delegation_plan(m: EscrowModel, owner: Seq<char>, name: Seq<char>, now: nat)
    requires
        m.valid(),
        m.delegate_refusal(now) is None,
    ensures
        m.delegation_plan(owner, name).dao_deposit + m.delegation_plan(owner, name).token_deposit
            == m.total_funds,
        m.delegation_plan(owner, name).token_deposit == TOKEN_RESERVE,
        m.delegation_plan(owner, name).members.len() == m.deposits.len(),
        forall|i: int|
            0 <= i < m.deposits.len() ==> #[trigger] m.delegation_plan(owner, name).members[i]
                == m.deposits[i].0,
        m.delegation_plan(owner, name).callback_account == owner,
        m.delegation_plan(owner, name).dao_name == name,
{
}

/// While no delegation has succeeded, the funds held are the sum of all
/// balances, and the funds held and what is missing make up the goal. After
/// a delegation the balances and what is missing still make up the goal.
pub proof fn law_headroom_tracks_funds(m: EscrowModel)
    requires
        m.valid(),
    ensures
        sum_of(m.deposits) + m.unpaid == m.funding_limit,
        m.total_funds <= m.funding_limit,
        m.delegation == DelegationState::NotStarted ==> m.total_funds + m.unpaid
            == m.funding_limit,
        m.delegation == DelegationState::NotStarted ==> m.total_funds == sum_of(m.deposits),
        forall|who: Seq<char>| #[trigger] m.deposits_of(who) <= m.funding_limit,
{
    assert forall|who: Seq<char>| #[trigger] m.deposits_of(who) <= m.funding_limit by {
        lemma_balance_bounded(m.deposits, who);
    }
}

/// The deadline, the goal and the three configured names never change.
pub proof fn law_configuration_is_fixed(
    m: EscrowModel,
    who: Seq<char>,
    amount: nat,
    name: Seq<char>,
    dao_created: bool,
)
    ensures
        same_configuration(m, m.after_deposit(who, amount)),
        same_configuration(m, m.after_withdraw(who)),
        same_configuration(m, m.after_callback(name, dao_created)),
{
}

/// While a delegation is planned and not yet reconciled, neither deposits
/// nor withdrawals open up: both are refused as long as the funds held stay
/// at the goal.
pub proof fn law_pending_delegation_is_closed(
    m: EscrowModel,
    owner: Seq<char>,
    who: Seq<char>,
    amount: nat,
    now: nat,
)
    requires
        m.valid(),
        m.delegate_refusal(now) is None,
    ensures
        m.deposit_refusal(owner, who, amount, now) is Some,
        m.withdraw_refusal(who, now) == Some(EscrowError::WithdrawalNotAllowed),
{
}

/// A reconciliation in which both services answer `true` takes the funds off
/// the books, keeps the requested name and answers `true`; every balance
/// stays as it was.
pub proof fn law_callback_success(
    m: EscrowModel,
    owner: Seq<char>,
    name: Seq<char>,
    results: Seq<RemoteResult>,
)
    requires
        m.valid(),
        m.delegation == DelegationState::NotStarted,
        results.len() == 2,
        results[0] matches RemoteResult::Successful(first) && first@ == true_word(),
        results[1] matches RemoteResult::Successful(second) && second@ == true_word(),
    ensures
        m.callback_flags(owner, owner, results) == Ok::<(bool, bool), EscrowError>((true, true)),
        m.after_callback(name, true).valid(),
        m.after_callback(name, true).total_funds == 0,
        m.after_callback(name, true).dao_name == Some(name),
        m.after_callback(name, true).delegation == DelegationState::Created,
        m.after_callback(name, true).deposits == m.deposits,
{
}

/// A reconciliation in which one of the two remote calls did not run is
/// aborted, whatever the other returned.
pub proof fn law_callback_failed_call(
    m: EscrowModel,
    owner: Seq<char>,
    caller: Seq<char>,
    results: Seq<RemoteResult>,
)
    requires
        results.len() == 2,
        results[0] is Failed || results[1] is Failed,
    ensures
        m.callback_flags(owner, caller, results) is Err,
        caller == owner && m.delegation == DelegationState::NotStarted && results[0] is Failed
            ==> m.callback_flags(owner, caller, results) == Err::<(bool, bool), EscrowError>(
            EscrowError::CreateDaoUnsuccessful,
        ),
{
}

/// A reconciliation in which both services answer `false` changes nothing
/// and answers `false`: the delegation can be tried again.
pub proof fn law_callback_declined(
    m: EscrowModel,
    owner: Seq<char>,
    name: Seq<char>,
    results: Seq<RemoteResult>,
    now: nat,
)
    requires
        m.valid(),
        m.delegation == DelegationState::NotStarted,
        results.len() == 2,
        results[0] matches RemoteResult::Successful(first) && first@ == false_word(),
        results[1] matches RemoteResult::Successful(second) && second@ == false_word(),
    ensures
        m.callback_flags(owner, owner, results) == Ok::<(bool, bool), EscrowError>(
            (false, false),
        ),
        m.after_callback(name, false) == m,
        m.after_callback(name, false).delegate_refusal(now) == m.delegate_refusal(now),
{
    assert(true_word().len() == 4);
    assert(false_word().len() == 5);
    assert(flag_of(false_word()) == Some(false));
}

/// Only the flag of the governance service decides whether the funds leave
/// the books: a reconciliation that is taken either changes nothing or takes
/// the funds off the books and keeps the name.
pub proof fn law_callback_accounting(
    m: EscrowModel,
    owner: Seq<char>,
    caller: Seq<char>,
    name: Seq<char>,
    results: Seq<RemoteResult>,
)
    requires
        m.valid(),
        m.callback_flags(owner, caller, results) is Ok,
    ensures
        caller == owner,
        m.delegation == DelegationState::NotStarted,
        ({
            let flags = m.callback_flags(owner, caller, results).unwrap();
            let after = m.after_callback(name, flags.0);
            &&& after.valid()
            &&& after.deposits == m.deposits
            &&& after.unpaid == m.unpaid
            &&& !flags.0 ==> after == m
            &&& flags.0 ==> after.total_funds == 0 && after.dao_name == Some(name)
                && after.delegation == DelegationState::Created
        }),
{
}

/// A delegation that has succeeded stays: from then on every reconciliation
/// is refused, so the name of the governance entity is set once and the state
/// never goes back to where no delegation had succeeded.
pub proof fn law_delegation_is_final(
    m: EscrowModel,
    owner: Seq<char>,
    caller: Seq<char>,
    results: Seq<RemoteResult>,
)
    requires
        m.valid(),
        m.delegation == DelegationState::Created,
    ensures
        m.dao_name is Some,
        m.callback_flags(owner, caller, results) is Err,
        caller == owner ==> m.callback_flags(owner, caller, results) == Err::<
            (bool, bool),
            EscrowError,
        >(EscrowError::DaoAlreadyCreated),
{
}

/// Deposits and withdrawals leave the delegation as it is.
pub proof fn law_accounting_keeps_delegation(m: EscrowModel, who: Seq<char>, amount: nat)
    ensures
        m.after_deposit(who, amount).delegation == m.delegation,
        m.after_deposit(who, amount).dao_name == m.dao_name,
        m.after_withdraw(who).delegation == m.delegation,
        m.after_withdraw(who).dao_name == m.dao_name,
{
}

} // verus!
