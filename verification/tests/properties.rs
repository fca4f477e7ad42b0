use conditional_escrow::remote::{read_flag, read_flags};
use conditional_escrow::shares::scaled_share;
use conditional_escrow::table::{all_distinct, assign, find, lookup, total};
use conditional_escrow::{
    CallContext, ConditionalEscrow, DelegationPlan, DelegationState, DepositRecord, EscrowError,
    EscrowRecord, RemoteResult, Transfer, SHARE_SCALE, TOKEN_RESERVE,
};

const UNIT: u128 = 1_000_000_000_000_000_000_000_000;
const EXPIRES_AT: u64 = 1_000;

fn escrow_account() -> String {
    String::from("escrow.near")
}

fn ann() -> String {
    String::from("ann.near")
}

fn ben() -> String {
    String::from("ben.near")
}

fn call(signer: &str, amount: u128, now: u64) -> CallContext {
    CallContext {
        current_account_id: escrow_account(),
        signer_account_id: String::from(signer),
        predecessor_account_id: String::from(signer),
        attached_deposit: amount,
        block_timestamp: now,
    }
}

fn own_call(now: u64) -> CallContext {
    CallContext {
        current_account_id: escrow_account(),
        signer_account_id: ann(),
        predecessor_account_id: escrow_account(),
        attached_deposit: 0,
        block_timestamp: now,
    }
}

fn escrow(limit: u128) -> ConditionalEscrow {
    ConditionalEscrow::new(
        false,
        EXPIRES_AT,
        limit,
        String::from("daos.near"),
        String::from("tokens.near"),
        String::from("ipfs://project"),
    )
    .unwrap()
}

fn ok(word: &str) -> RemoteResult {
    RemoteResult::Successful(word.as_bytes().to_vec())
}

#[test]
fn new_escrow_is_empty() {
    let e = escrow(15 * UNIT);
    assert_eq!(e.get_total_funds(), 0);
    assert_eq!(e.get_min_funding_amount(), 15 * UNIT);
    assert_eq!(e.get_unpaid_funding_amount(), 15 * UNIT);
    assert_eq!(e.get_expiration_date(), EXPIRES_AT);
    assert_eq!(e.get_recipient_account_id(), "daos.near");
    assert_eq!(e.get_token_factory_account_id(), "tokens.near");
    assert_eq!(e.get_metadata_url(), "ipfs://project");
    assert_eq!(e.get_dao_name(), None);
    assert!(!e.is_dao_created());
    assert!(e.get_deposits().is_empty());
    assert_eq!(e.deposits_of(&ann()), 0);
    assert_eq!(e.get_shares_of(&ann()), 0);
}

#[test]
fn new_refuses_a_second_set_up() {
    let r = ConditionalEscrow::new(
        true,
        EXPIRES_AT,
        15 * UNIT,
        String::from("daos.near"),
        String::from("tokens.near"),
        String::new(),
    );
    assert_eq!(r.err(), Some(EscrowError::AlreadyInitialized));
}

#[test]
fn new_refuses_a_limit_below_the_reserve() {
    let r = ConditionalEscrow::new(
        false,
        EXPIRES_AT,
        TOKEN_RESERVE - 1,
        String::from("daos.near"),
        String::from("tokens.near"),
        String::new(),
    );
    assert_eq!(r.err(), Some(EscrowError::InsufficientFundsLimit));
    let r = ConditionalEscrow::new(
        false,
        EXPIRES_AT,
        TOKEN_RESERVE,
        String::from("daos.near"),
        String::from("tokens.near"),
        String::new(),
    );
    assert!(r.is_ok());
    // an escrow that exists is reported before the limit is looked at
    let r = ConditionalEscrow::new(
        true,
        EXPIRES_AT,
        0,
        String::from("daos.near"),
        String::from("tokens.near"),
        String::new(),
    );
    assert_eq!(r.err(), Some(EscrowError::AlreadyInitialized));
}

#[test]
fn phases_follow_time_and_funds() {
    let mut e = escrow(2 * UNIT);
    // open
    assert!(e.is_deposit_allowed(EXPIRES_AT - 1));
    assert!(!e.is_withdrawal_allowed(EXPIRES_AT - 1));
    assert!(!e.is_delegation_allowed(EXPIRES_AT - 1));
    assert!(!e.has_contract_expired(EXPIRES_AT - 1));
    // the deadline itself counts as passed
    assert!(e.has_contract_expired(EXPIRES_AT));
    assert!(!e.is_deposit_allowed(EXPIRES_AT));
    assert!(e.is_withdrawal_allowed(EXPIRES_AT));
    assert!(!e.is_delegation_allowed(EXPIRES_AT));
    // goal met
    e.deposit(&call("ann.near", 2 * UNIT, 5)).unwrap();
    assert!(e.is_funding_minimum_reached());
    assert!(!e.is_deposit_allowed(5));
    assert!(!e.is_withdrawal_allowed(5));
    assert!(e.is_delegation_allowed(5));
    assert!(!e.is_deposit_allowed(EXPIRES_AT + 1));
    assert!(!e.is_withdrawal_allowed(EXPIRES_AT + 1));
    assert!(e.is_delegation_allowed(EXPIRES_AT + 1));
}

#[test]
fn deposit_moves_balance_funds_and_headroom_by_the_amount() {
    let mut e = escrow(15 * UNIT);
    let first = e.deposit(&call("ann.near", 4 * UNIT, 10)).unwrap();
    assert_eq!(
        first,
        DepositRecord {
            account: ann(),
            amount: 4 * UNIT,
            previous_balance: 0,
            new_balance: 4 * UNIT,
            total_funds: 4 * UNIT,
        }
    );
    e.deposit(&call("ben.near", UNIT, 11)).unwrap();
    let second = e.deposit(&call("ann.near", 3, 12)).unwrap();
    assert_eq!(
        second,
        DepositRecord {
            account: ann(),
            amount: 3,
            previous_balance: 4 * UNIT,
            new_balance: 4 * UNIT + 3,
            total_funds: 5 * UNIT + 3,
        }
    );
    assert_eq!(e.deposits_of(&ann()), 4 * UNIT + 3);
    assert_eq!(e.deposits_of(&ben()), UNIT);
    assert_eq!(e.get_total_funds(), 5 * UNIT + 3);
    assert_eq!(e.get_unpaid_funding_amount(), 10 * UNIT - 3);
    assert_eq!(
        e.get_deposits(),
        vec![(ann(), 4 * UNIT + 3), (ben(), UNIT)]
    );
}

#[test]
fn deposit_refusals_in_their_order() {
    let mut e = escrow(2 * UNIT);
    let before = e.snapshot();
    // the escrow's own account, even with nothing attached and after the deadline
    assert_eq!(
        e.deposit(&call("escrow.near", 0, EXPIRES_AT + 1)),
        Err(EscrowError::OwnerShouldNotDeposit)
    );
    // nothing attached, even after the deadline
    assert_eq!(
        e.deposit(&call("ann.near", 0, EXPIRES_AT + 1)),
        Err(EscrowError::DepositShouldNotBeZero)
    );
    // after the deadline, even when too large
    assert_eq!(
        e.deposit(&call("ann.near", 3 * UNIT, EXPIRES_AT)),
        Err(EscrowError::DepositNotAllowed)
    );
    // too large: refused whole, not cut down
    assert_eq!(
        e.deposit(&call("ann.near", 2 * UNIT + 1, 5)),
        Err(EscrowError::DepositExceedsLimit)
    );
    assert_eq!(e.snapshot(), before);
    assert_eq!(e.get_total_funds(), 0);
    // exactly what is missing is accepted
    assert!(e.deposit(&call("ann.near", 2 * UNIT, 5)).is_ok());
}

#[test]
fn deposits_up_to_the_goal_close_deposits_before_the_deadline() {
    let mut e = escrow(3 * UNIT);
    e.deposit(&call("ann.near", UNIT, 1)).unwrap();
    assert!(e.is_deposit_allowed(2));
    e.deposit(&call("ben.near", UNIT + 7, 2)).unwrap();
    assert!(e.is_deposit_allowed(3));
    e.deposit(&call("ann.near", UNIT - 7, 3)).unwrap();
    assert_eq!(e.get_total_funds(), e.get_min_funding_amount());
    assert_eq!(e.get_unpaid_funding_amount(), 0);
    assert!(!e.is_deposit_allowed(3));
    assert!(!e.is_deposit_allowed(0));
    assert_eq!(
        e.deposit(&call("ben.near", 1, 4)),
        Err(EscrowError::DepositNotAllowed)
    );
}

#[test]
fn withdraw_twice_pays_nothing_the_second_time() {
    let mut e = escrow(15 * UNIT);
    e.deposit(&call("ann.near", 2 * UNIT, 1)).unwrap();
    e.deposit(&call("ben.near", 5 * UNIT, 2)).unwrap();
    let first = e.withdraw(&call("ann.near", 0, EXPIRES_AT)).unwrap();
    assert_eq!(
        first,
        Transfer {
            destination: ann(),
            amount: 2 * UNIT,
        }
    );
    assert_eq!(e.get_total_funds(), 5 * UNIT);
    assert_eq!(e.get_unpaid_funding_amount(), 10 * UNIT);
    let once = e.snapshot();
    let second = e.withdraw(&call("ann.near", 0, EXPIRES_AT + 5)).unwrap();
    assert_eq!(
        second,
        Transfer {
            destination: ann(),
            amount: 0,
        }
    );
    assert_eq!(e.snapshot(), once);
    assert_eq!(e.deposits_of(&ann()), 0);
    assert_eq!(e.deposits_of(&ben()), 5 * UNIT);
}

#[test]
fn withdraw_by_a_stranger_pays_nothing() {
    let mut e = escrow(15 * UNIT);
    e.deposit(&call("ann.near", 2 * UNIT, 1)).unwrap();
    let paid = e.withdraw(&call("zed.near", 0, EXPIRES_AT)).unwrap();
    assert_eq!(paid.amount, 0);
    assert_eq!(paid.destination, "zed.near");
    assert_eq!(e.get_total_funds(), 2 * UNIT);
    assert_eq!(
        e.get_deposits(),
        vec![(ann(), 2 * UNIT), (String::from("zed.near"), 0)]
    );
}

#[test]
fn withdraw_is_refused_while_open_and_after_success() {
    let mut e = escrow(2 * UNIT);
    e.deposit(&call("ann.near", UNIT, 1)).unwrap();
    assert_eq!(
        e.withdraw(&call("ann.near", 0, EXPIRES_AT - 1)),
        Err(EscrowError::WithdrawalNotAllowed)
    );
    e.deposit(&call("ben.near", UNIT, 2)).unwrap();
    assert_eq!(
        e.withdraw(&call("ann.near", 0, EXPIRES_AT + 1)),
        Err(EscrowError::WithdrawalNotAllowed)
    );
    assert_eq!(e.deposits_of(&ann()), UNIT);
    assert_eq!(e.get_total_funds(), 2 * UNIT);
}

#[test]
fn scenario_goal_met_then_delegated() {
    let mut e = escrow(15 * UNIT);
    let half = 15 * UNIT / 2;
    e.deposit(&call("ann.near", half, 1)).unwrap();
    e.deposit(&call("ben.near", half, 2)).unwrap();
    let now = EXPIRES_AT + 10;
    assert!(!e.is_withdrawal_allowed(now));
    assert!(!e.is_deposit_allowed(now));
    let plan = e
        .delegate_funds(&call("ann.near", 0, now), String::from("pool"))
        .unwrap();
    assert_eq!(
        plan,
        DelegationPlan {
            dao_factory: String::from("daos.near"),
            dao_name: String::from("pool"),
            dao_deposit: 15 * UNIT - TOKEN_RESERVE,
            members: vec![ann(), ben()],
            token_factory: String::from("tokens.near"),
            token_deposit: TOKEN_RESERVE,
            callback_account: escrow_account(),
        }
    );
    // planning changes nothing
    assert_eq!(e.get_total_funds(), 15 * UNIT);
    assert!(!e.is_dao_created());
    let done = e.on_delegate_callback(
        &own_call(now + 1),
        String::from("pool"),
        &vec![ok("true"), ok("true")],
    );
    assert_eq!(done, Ok(true));
    assert_eq!(e.get_total_funds(), 0);
    assert_eq!(e.deposits_of(&ann()), half);
    assert_eq!(e.deposits_of(&ben()), half);
    assert_eq!(e.get_dao_name(), Some(String::from("pool")));
    assert!(e.is_dao_created());
    assert_eq!(e.get_shares_of(&ann()), 500);
    assert_eq!(e.get_shares_of(&ben()), 500);
}

#[test]
fn scenario_goal_missed_then_refunded() {
    let mut e = escrow(15 * UNIT);
    e.deposit(&call("ann.near", UNIT, 1)).unwrap();
    let now = EXPIRES_AT + 10;
    assert!(e.is_withdrawal_allowed(now));
    let paid = e.withdraw(&call("ann.near", 0, now)).unwrap();
    assert_eq!(
        paid,
        Transfer {
            destination: ann(),
            amount: UNIT,
        }
    );
    assert_eq!(e.deposits_of(&ann()), 0);
    assert_eq!(e.get_total_funds(), 0);
    assert_eq!(e.get_unpaid_funding_amount(), 15 * UNIT);
}

#[test]
fn delegate_is_refused_while_deposits_or_withdrawals_are_open() {
    let mut e = escrow(2 * UNIT);
    e.deposit(&call("ann.near", UNIT, 1)).unwrap();
    assert!(e.is_deposit_allowed(2));
    assert_eq!(
        e.delegate_funds(&call("ann.near", 0, 2), String::from("pool")),
        Err(EscrowError::DelegateNotAllowed)
    );
    assert!(e.is_withdrawal_allowed(EXPIRES_AT));
    assert_eq!(
        e.delegate_funds(&call("ann.near", 0, EXPIRES_AT), String::from("pool")),
        Err(EscrowError::DelegateNotAllowed)
    );
}

#[test]
fn delegate_is_in_order_as_soon_as_the_goal_is_met() {
    let mut e = escrow(2 * UNIT);
    e.deposit(&call("ann.near", 2 * UNIT, 1)).unwrap();
    let plan = e
        .delegate_funds(&call("ben.near", 0, 2), String::from("early"))
        .unwrap();
    assert_eq!(plan.dao_deposit, UNIT);
    assert_eq!(plan.token_deposit, TOKEN_RESERVE);
    assert_eq!(plan.dao_deposit + plan.token_deposit, e.get_total_funds());
    assert_eq!(plan.members, vec![ann()]);
}

#[test]
fn callback_with_a_failed_call_aborts() {
    let mut e = escrow(2 * UNIT);
    e.deposit(&call("ann.near", 2 * UNIT, 1)).unwrap();
    let before = e.snapshot();
    assert_eq!(
        e.on_delegate_callback(
            &own_call(5),
            String::from("pool"),
            &vec![RemoteResult::Failed, ok("true")]
        ),
        Err(EscrowError::CreateDaoUnsuccessful)
    );
    assert_eq!(
        e.on_delegate_callback(
            &own_call(5),
            String::from("pool"),
            &vec![ok("true"), RemoteResult::Failed]
        ),
        Err(EscrowError::CreateFtUnsuccessful)
    );
    assert_eq!(
        e.on_delegate_callback(
            &own_call(5),
            String::from("pool"),
            &vec![RemoteResult::Failed, RemoteResult::Failed]
        ),
        Err(EscrowError::CreateDaoUnsuccessful)
    );
    assert_eq!(e.snapshot(), before);
    assert_eq!(e.get_total_funds(), 2 * UNIT);
    assert!(!e.is_dao_created());
}

#[test]
fn callback_with_both_declined_changes_nothing() {
    let mut e = escrow(2 * UNIT);
    e.deposit(&call("ann.near", 2 * UNIT, 1)).unwrap();
    let before = e.snapshot();
    assert_eq!(
        e.on_delegate_callback(
            &own_call(5),
            String::from("pool"),
            &vec![ok("false"), ok("false")]
        ),
        Ok(false)
    );
    assert_eq!(e.snapshot(), before);
    assert_eq!(e.get_total_funds(), 2 * UNIT);
    // the delegation can be tried again
    assert!(e
        .delegate_funds(&call("ann.near", 0, 6), String::from("pool"))
        .is_ok());
}

#[test]
fn callback_is_decided_by_the_governance_flag() {
    let mut e = escrow(2 * UNIT);
    e.deposit(&call("ann.near", 2 * UNIT, 1)).unwrap();
    // token declined, governance created: funds leave, answer is false
    assert_eq!(
        e.on_delegate_callback(
            &own_call(5),
            String::from("pool"),
            &vec![ok("true"), ok("false")]
        ),
        Ok(false)
    );
    assert_eq!(e.get_total_funds(), 0);
    assert_eq!(e.get_dao_name(), Some(String::from("pool")));
    assert_eq!(e.snapshot().delegation, DelegationState::Created);

    let mut e = escrow(2 * UNIT);
    e.deposit(&call("ann.near", 2 * UNIT, 1)).unwrap();
    // governance declined, token created: nothing moves
    assert_eq!(
        e.on_delegate_callback(
            &own_call(5),
            String::from("pool"),
            &vec![ok("false"), ok("true")]
        ),
        Ok(false)
    );
    assert_eq!(e.get_total_funds(), 2 * UNIT);
    assert_eq!(e.get_dao_name(), None);
    assert_eq!(e.snapshot().delegation, DelegationState::NotStarted);
}

#[test]
fn callback_protocol_errors() {
    let mut e = escrow(2 * UNIT);
    e.deposit(&call("ann.near", 2 * UNIT, 1)).unwrap();
    let before = e.snapshot();
    // another account than the escrow's own
    assert_eq!(
        e.on_delegate_callback(
            &call("ann.near", 0, 5),
            String::from("pool"),
            &vec![ok("true"), ok("true")]
        ),
        Err(EscrowError::CallbackNotPrivate)
    );
    // not two results
    assert_eq!(
        e.on_delegate_callback(&own_call(5), String::from("pool"), &vec![]),
        Err(EscrowError::CallbackMethod)
    );
    assert_eq!(
        e.on_delegate_callback(&own_call(5), String::from("pool"), &vec![ok("true")]),
        Err(EscrowError::CallbackMethod)
    );
    assert_eq!(
        e.on_delegate_callback(
            &own_call(5),
            String::from("pool"),
            &vec![ok("true"), ok("true"), ok("true")]
        ),
        Err(EscrowError::CallbackMethod)
    );
    // a payload that is no flag
    assert_eq!(
        e.on_delegate_callback(
            &own_call(5),
            String::from("pool"),
            &vec![ok("yes"), ok("true")]
        ),
        Err(EscrowError::MalformedResult)
    );
    assert_eq!(
        e.on_delegate_callback(
            &own_call(5),
            String::from("pool"),
            &vec![ok("true"), ok("")]
        ),
        Err(EscrowError::MalformedResult)
    );
    // the first result is judged first
    assert_eq!(
        e.on_delegate_callback(
            &own_call(5),
            String::from("pool"),
            &vec![ok("True"), RemoteResult::Failed]
        ),
        Err(EscrowError::MalformedResult)
    );
    assert_eq!(e.snapshot(), before);
}

#[test]
fn after_delegation_the_books_pay_nothing_out() {
    let mut e = escrow(2 * UNIT);
    e.deposit(&call("ann.near", 2 * UNIT, 1)).unwrap();
    e.on_delegate_callback(
        &own_call(5),
        String::from("pool"),
        &vec![ok("true"), ok("true")],
    )
    .unwrap();
    let before = e.snapshot();
    // a second reconciliation is not taken, whatever it brings
    assert_eq!(
        e.on_delegate_callback(
            &own_call(6),
            String::from("other"),
            &vec![ok("true"), ok("true")]
        ),
        Err(EscrowError::DaoAlreadyCreated)
    );
    assert_eq!(
        e.on_delegate_callback(&own_call(6), String::from("other"), &vec![]),
        Err(EscrowError::DaoAlreadyCreated)
    );
    assert_eq!(e.get_dao_name(), Some(String::from("pool")));
    assert!(e.is_withdrawal_allowed(EXPIRES_AT));
    assert_eq!(
        e.withdraw(&call("ann.near", 0, EXPIRES_AT)),
        Err(EscrowError::WithdrawalExceedsFunds)
    );
    assert_eq!(e.snapshot(), before);
    assert_eq!(
        e.withdraw(&call("ben.near", 0, EXPIRES_AT)).unwrap().amount,
        0
    );
    // nothing is missing to the goal, so nothing more is taken
    assert_eq!(
        e.deposit(&call("ben.near", 1, 6)),
        Err(EscrowError::DepositExceedsLimit)
    );
    assert_eq!(
        e.delegate_funds(&call("ann.near", 0, EXPIRES_AT), String::from("again")),
        Err(EscrowError::DelegateNotAllowed)
    );
}

#[test]
fn shares_are_thousandths_rounded_down() {
    let mut e = escrow(3 * UNIT);
    e.deposit(&call("ann.near", UNIT, 1)).unwrap();
    e.deposit(&call("ben.near", 2 * UNIT - 1, 2)).unwrap();
    assert_eq!(e.get_shares_of(&ann()), 333);
    assert_eq!(e.get_shares_of(&ben()), 666);
    assert_eq!(e.get_shares_of(&String::from("zed.near")), 0);
    e.deposit(&call("ben.near", 1, 3)).unwrap();
    assert_eq!(e.get_shares_of(&ben()), 666);
    assert_eq!(
        e.get_shares_of(&ben()),
        e.deposits_of(&ben()) * 1000 / e.get_min_funding_amount()
    );

    let mut e = escrow(2 * UNIT);
    e.deposit(&call("ann.near", UNIT, 1)).unwrap();
    assert_eq!(e.get_shares_of(&ann()), 500);
    e.deposit(&call("ann.near", UNIT, 2)).unwrap();
    assert_eq!(e.get_shares_of(&ann()), SHARE_SCALE);
}

#[test]
fn scaled_share_at_the_edges() {
    assert_eq!(SHARE_SCALE, 1000);
    assert_eq!(scaled_share(0, 1), 0);
    assert_eq!(scaled_share(1, 1), 1000);
    assert_eq!(scaled_share(5, 10), 500);
    assert_eq!(scaled_share(4, 9), 444);
    assert_eq!(scaled_share(5, 9), 555);
    assert_eq!(scaled_share(1, 1000), 1);
    assert_eq!(scaled_share(1, 1001), 0);
    assert_eq!(scaled_share(999, 1000), 999);
    assert_eq!(scaled_share(7, 2000), 3);
    // amounts whose thousandfold does not fit the range
    assert_eq!(scaled_share(u128::MAX, u128::MAX), 1000);
    assert_eq!(scaled_share(u128::MAX - 1, u128::MAX), 999);
    assert_eq!(scaled_share(u128::MAX / 2, u128::MAX), 499);
    assert_eq!(scaled_share(u128::MAX / 2 + 1, u128::MAX), 500);
    assert_eq!(scaled_share(u128::MAX / 1000, u128::MAX), 0);
    assert_eq!(scaled_share(u128::MAX / 1000 + 1, u128::MAX), 1);
    assert_eq!(scaled_share(1 << 126, 1 << 127), 500);
    assert_eq!(scaled_share(3 << 125, 1 << 127), 750);
}

#[test]
fn flags_are_the_two_words_and_nothing_else() {
    assert_eq!(read_flag(&b"true".to_vec()), Some(true));
    assert_eq!(read_flag(&b"false".to_vec()), Some(false));
    assert_eq!(read_flag(&b"".to_vec()), None);
    assert_eq!(read_flag(&b"tru".to_vec()), None);
    assert_eq!(read_flag(&b"True".to_vec()), None);
    assert_eq!(read_flag(&b"true ".to_vec()), None);
    assert_eq!(read_flag(&b"falsy".to_vec()), None);
    assert_eq!(read_flag(&b"truf".to_vec()), None);
    assert_eq!(read_flag(&b"1".to_vec()), None);
    assert_eq!(read_flags(&vec![ok("true"), ok("false")]), Ok((true, false)));
    assert_eq!(read_flags(&vec![ok("false"), ok("true")]), Ok((false, true)));
    assert_eq!(
        read_flags(&vec![ok("false")]),
        Err(EscrowError::CallbackMethod)
    );
}

#[test]
fn table_keeps_one_entry_per_account_in_order() {
    let mut t: Vec<(String, u128)> = Vec::new();
    assert_eq!(find(&t, &ann()), None);
    assert_eq!(lookup(&t, &ann()), 0);
    assign(&mut t, &ann(), 5);
    assign(&mut t, &ben(), 7);
    assign(&mut t, &ann(), 9);
    assert_eq!(t, vec![(ann(), 9), (ben(), 7)]);
    assert_eq!(find(&t, &ben()), Some(1));
    assert_eq!(lookup(&t, &ann()), 9);
    assert_eq!(lookup(&t, &ben()), 7);
    assert_eq!(total(&t), Some(16));
    assert!(all_distinct(&t));
    t.push((ann(), 1));
    assert!(!all_distinct(&t));
    let big = vec![(ann(), u128::MAX), (ben(), 1)];
    assert_eq!(total(&big), None);
    assert_eq!(total(&vec![(ann(), u128::MAX), (ben(), 0)]), Some(u128::MAX));
}

#[test]
fn stored_state_comes_back_as_it_was() {
    let mut e = escrow(3 * UNIT);
    e.deposit(&call("ann.near", UNIT, 1)).unwrap();
    e.deposit(&call("ben.near", UNIT, 2)).unwrap();
    let stored = e.snapshot();
    assert_eq!(
        stored,
        EscrowRecord {
            deposits: vec![(ann(), UNIT), (ben(), UNIT)],
            expires_at: EXPIRES_AT,
            total_funds: 2 * UNIT,
            min_funding_amount: 3 * UNIT,
            unpaid_funding_amount: UNIT,
            recipient_account_id: String::from("daos.near"),
            token_factory_account_id: String::from("tokens.near"),
            metadata_url: String::from("ipfs://project"),
            delegation: DelegationState::NotStarted,
            dao_name: None,
        }
    );
    let mut back = ConditionalEscrow::restore(stored.clone()).unwrap();
    assert_eq!(back.snapshot(), stored);
    back.deposit(&call("ann.near", UNIT, 3)).unwrap();
    assert_eq!(back.get_total_funds(), 3 * UNIT);
}

#[test]
fn stored_state_that_cannot_be_is_refused() {
    let good = EscrowRecord {
        deposits: vec![(ann(), UNIT), (ben(), UNIT)],
        expires_at: EXPIRES_AT,
        total_funds: 2 * UNIT,
        min_funding_amount: 3 * UNIT,
        unpaid_funding_amount: UNIT,
        recipient_account_id: String::from("daos.near"),
        token_factory_account_id: String::from("tokens.near"),
        metadata_url: String::new(),
        delegation: DelegationState::NotStarted,
        dao_name: None,
    };
    assert!(ConditionalEscrow::restore(good.clone()).is_ok());

    let mut bad = good.clone();
    bad.deposits = vec![(ann(), UNIT), (ann(), UNIT)];
    assert_eq!(
        ConditionalEscrow::restore(bad).err(),
        Some(EscrowError::CorruptState)
    );

    let mut bad = good.clone();
    bad.total_funds = 2 * UNIT - 1;
    assert_eq!(
        ConditionalEscrow::restore(bad).err(),
        Some(EscrowError::CorruptState)
    );

    let mut bad = good.clone();
    bad.unpaid_funding_amount = UNIT + 1;
    assert_eq!(
        ConditionalEscrow::restore(bad).err(),
        Some(EscrowError::CorruptState)
    );

    let mut bad = good.clone();
    bad.min_funding_amount = TOKEN_RESERVE - 1;
    assert_eq!(
        ConditionalEscrow::restore(bad).err(),
        Some(EscrowError::CorruptState)
    );

    let mut bad = good.clone();
    bad.deposits = vec![(ann(), u128::MAX), (ben(), UNIT)];
    assert_eq!(
        ConditionalEscrow::restore(bad).err(),
        Some(EscrowError::CorruptState)
    );

    let mut bad = good.clone();
    bad.dao_name = Some(String::from("pool"));
    assert_eq!(
        ConditionalEscrow::restore(bad).err(),
        Some(EscrowError::CorruptState)
    );

    let mut bad = good.clone();
    bad.delegation = DelegationState::Created;
    assert_eq!(
        ConditionalEscrow::restore(bad).err(),
        Some(EscrowError::CorruptState)
    );

    // after a delegation the funds are gone and the balances stay
    let mut delegated = good.clone();
    delegated.delegation = DelegationState::Created;
    delegated.dao_name = Some(String::from("pool"));
    delegated.total_funds = 0;
    assert!(ConditionalEscrow::restore(delegated).is_ok());
}

#[test]
fn every_condition_has_its_own_code() {
    let all = [
        (EscrowError::AlreadyInitialized, "ERR_ALREADY_INITIALIZED"),
        (
            EscrowError::InsufficientFundsLimit,
            "ERR_INSUFFICIENT_FUNDS_LIMIT",
        ),
        (
            EscrowError::OwnerShouldNotDeposit,
            "ERR_OWNER_SHOULD_NOT_DEPOSIT",
        ),
        (
            EscrowError::DepositShouldNotBeZero,
            "ERR_DEPOSIT_SHOULD_NOT_BE_0",
        ),
        (EscrowError::DepositNotAllowed, "ERR_DEPOSIT_NOT_ALLOWED"),
        (
            EscrowError::DepositExceedsLimit,
            "ERR_DEPOSIT_NOT_ALLOWED_BY_LIMIT",
        ),
        (
            EscrowError::WithdrawalNotAllowed,
            "ERR_WITHDRAWAL_NOT_ALLOWED",
        ),
        (
            EscrowError::WithdrawalExceedsFunds,
            "ERR_WITHDRAWAL_EXCEEDS_FUNDS",
        ),
        (EscrowError::DelegateNotAllowed, "ERR_DELEGATE_NOT_ALLOWED"),
        (EscrowError::TotalFundsOverflow, "ERR_TOTAL_FUNDS_OVERFLOW"),
        (EscrowError::CallbackNotPrivate, "ERR_CALLBACK_NOT_PRIVATE"),
        (EscrowError::DaoAlreadyCreated, "ERR_DAO_ALREADY_CREATED"),
        (EscrowError::CallbackMethod, "ERR_CALLBACK_METHOD"),
        (
            EscrowError::CreateDaoUnsuccessful,
            "ERR_CREATE_DAO_UNSUCCESSFUL",
        ),
        (
            EscrowError::CreateFtUnsuccessful,
            "ERR_CREATE_FT_UNSUCCESSFUL",
        ),
        (EscrowError::MalformedResult, "ERR_MALFORMED_RESULT"),
        (EscrowError::CorruptState, "ERR_CORRUPT_STATE"),
    ];
    for (i, (e, code)) in all.iter().enumerate() {
        assert_eq!(e.code(), *code);
        for (j, (_, other)) in all.iter().enumerate() {
            assert_eq!(i == j, code == other);
        }
    }
}
