//! The ledger's lifecycle, with a small book of token balances standing in
//! for the value-transfer service: every receipt is settled against it.

use safehands::{
    ErrorKind, EscrowError, EscrowEvent, EscrowState, Identity, Receipt, SafeHandsContract,
    Transfer,
};

const TEST_DEADLINE_DAYS: u64 = 30;
const START: u64 = 0;

fn party(name: &str) -> Identity {
    Identity::new(name.to_string())
}

struct Book {
    custody: i128,
    accounts: Vec<(Identity, i128)>,
}

impl Book {
    fn new() -> Book {
        Book { custody: 0, accounts: Vec::new() }
    }

    fn credit(&mut self, who: &Identity, amount: i128) {
        for entry in self.accounts.iter_mut() {
            if entry.0 == *who {
                entry.1 += amount;
                return;
            }
        }
        self.accounts.push((who.clone(), amount));
    }

    fn mint(&mut self, who: &Identity, amount: i128) {
        self.credit(who, amount);
    }

    fn balance(&self, who: &Identity) -> i128 {
        self.accounts.iter().find(|entry| entry.0 == *who).map(|entry| entry.1).unwrap_or(0)
    }

    fn settle(&mut self, receipt: &Receipt) {
        match &receipt.transfer {
            Some(Transfer::Lock { from, amount, .. }) => {
                assert!(self.balance(from) >= *amount, "insufficient balance");
                self.credit(from, -*amount);
                self.custody += *amount;
            }
            Some(Transfer::Payout { to, amount, .. }) => {
                assert!(self.custody >= *amount, "custody overdrawn");
                self.custody -= *amount;
                self.credit(to, *amount);
            }
            None => {}
        }
    }
}

fn accepted(result: Result<Receipt, EscrowError>, book: &mut Book) -> Receipt {
    match result {
        Ok(receipt) => {
            book.settle(&receipt);
            receipt
        }
        Err(e) => panic!("{}", e.message()),
    }
}

#[test]
fn test_flow() {
    let mut ledger = SafeHandsContract::new();
    let mut book = Book::new();
    let token = party("token");
    let user_a = party("user-a");
    let user_b = party("user-b");
    let arbiter = party("arbiter");

    book.mint(&user_a, 1000_i128);

    let id = accepted(
        ledger.deposit(&user_a, &user_b, &arbiter, &token, 100_i128, TEST_DEADLINE_DAYS, START),
        &mut book,
    )
    .escrow_id;

    let escrow = ledger.get_escrow(id).unwrap();
    assert_eq!(escrow.amount, 100_i128);
    assert_eq!(escrow.state, EscrowState::Funded);
    assert!(escrow.deadline > 0);

    let user_a_escrows = ledger.get_user_escrows(&user_a);
    assert_eq!(user_a_escrows.len(), 1);
    assert_eq!(user_a_escrows[0], id);

    accepted(ledger.approve(&user_a, id), &mut book);
    accepted(ledger.approve(&user_b, id), &mut book);

    let escrow_updated = ledger.get_escrow(id).unwrap();
    assert_eq!(escrow_updated.state, EscrowState::Released);

    assert_eq!(book.balance(&user_b), 100_i128);
}

#[test]
fn test_cancel() {
    let mut ledger = SafeHandsContract::new();
    let mut book = Book::new();
    let token = party("token");
    let user_a = party("user-a");
    let user_b = party("user-b");
    let arbiter = party("arbiter");

    book.mint(&user_a, 1000_i128);

    let id = accepted(
        ledger.deposit(&user_a, &user_b, &arbiter, &token, 500_i128, TEST_DEADLINE_DAYS, START),
        &mut book,
    )
    .escrow_id;

    accepted(ledger.cancel(&user_a, id), &mut book);

    assert_eq!(book.balance(&user_a), 1000_i128);

    let escrow = ledger.get_escrow(id).unwrap();
    assert_eq!(escrow.state, EscrowState::Cancelled);
}

#[test]
fn test_dispute_resolution() {
    let mut ledger = SafeHandsContract::new();
    let mut book = Book::new();
    let token = party("token");
    let user_a = party("user-a");
    let user_b = party("user-b");
    let arbiter = party("arbiter");

    book.mint(&user_a, 1000_i128);

    let id = accepted(
        ledger.deposit(&user_a, &user_b, &arbiter, &token, 500_i128, TEST_DEADLINE_DAYS, START),
        &mut book,
    )
    .escrow_id;

    accepted(ledger.dispute(&user_a, id), &mut book);

    let escrow = ledger.get_escrow(id).unwrap();
    assert_eq!(escrow.state, EscrowState::Disputed);

    accepted(ledger.resolve(&arbiter, id, &user_a), &mut book);

    assert_eq!(book.balance(&user_a), 1000_i128);

    let escrow_resolved = ledger.get_escrow(id).unwrap();
    assert_eq!(escrow_resolved.state, EscrowState::Resolved);
}

#[test]
#[should_panic(expected = "Amount must be positive")]
fn test_zero_amount_deposit() {
    let mut ledger = SafeHandsContract::new();
    let mut book = Book::new();
    let token = party("token");
    let user_a = party("user-a");
    let user_b = party("user-b");
    let arbiter = party("arbiter");

    accepted(
        ledger.deposit(&user_a, &user_b, &arbiter, &token, 0_i128, TEST_DEADLINE_DAYS, START),
        &mut book,
    );
}

#[test]
#[should_panic(expected = "Deadline must be at least 1 day")]
fn test_zero_deadline_deposit() {
    let mut ledger = SafeHandsContract::new();
    let mut book = Book::new();
    let token = party("token");
    let user_a = party("user-a");
    let user_b = party("user-b");
    let arbiter = party("arbiter");

    book.mint(&user_a, 1000_i128);

    accepted(ledger.deposit(&user_a, &user_b, &arbiter, &token, 100_i128, 0, START), &mut book);
}

#[test]
fn test_double_approval_client() {
    let mut ledger = SafeHandsContract::new();
    let mut book = Book::new();
    let token = party("token");
    let user_a = party("user-a");
    let user_b = party("user-b");
    let arbiter = party("arbiter");

    book.mint(&user_a, 1000_i128);

    let id = accepted(
        ledger.deposit(&user_a, &user_b, &arbiter, &token, 100_i128, TEST_DEADLINE_DAYS, START),
        &mut book,
    )
    .escrow_id;

    accepted(ledger.approve(&user_a, id), &mut book);
    accepted(ledger.approve(&user_a, id), &mut book);

    let escrow = ledger.get_escrow(id).unwrap();
    assert_eq!(escrow.approved_by_client, true);
    assert_eq!(escrow.state, EscrowState::Funded);
}

#[test]
#[should_panic(expected = "Only client can cancel")]
fn test_unauthorized_cancel() {
    let mut ledger = SafeHandsContract::new();
    let mut book = Book::new();
    let token = party("token");
    let user_a = party("user-a");
    let user_b = party("user-b");
    let arbiter = party("arbiter");

    book.mint(&user_a, 1000_i128);

    let id = accepted(
        ledger.deposit(&user_a, &user_b, &arbiter, &token, 100_i128, TEST_DEADLINE_DAYS, START),
        &mut book,
    )
    .escrow_id;

    accepted(ledger.cancel(&user_b, id), &mut book);
}

#[test]
#[should_panic(expected = "Cannot cancel: Freelancer has already accepted/approved")]
fn test_cancel_after_freelancer_approval() {
    let mut ledger = SafeHandsContract::new();
    let mut book = Book::new();
    let token = party("token");
    let user_a = party("user-a");
    let user_b = party("user-b");
    let arbiter = party("arbiter");

    book.mint(&user_a, 1000_i128);

    let id = accepted(
        ledger.deposit(&user_a, &user_b, &arbiter, &token, 100_i128, TEST_DEADLINE_DAYS, START),
        &mut book,
    )
    .escrow_id;

    accepted(ledger.approve(&user_b, id), &mut book);

    accepted(ledger.cancel(&user_a, id), &mut book);
}

#[test]
#[should_panic(expected = "Not the authorized arbiter")]
fn test_unauthorized_resolve() {
    let mut ledger = SafeHandsContract::new();
    let mut book = Book::new();
    let token = party("token");
    let user_a = party("user-a");
    let user_b = party("user-b");
    let arbiter = party("arbiter");
    let random = party("random");

    book.mint(&user_a, 1000_i128);

    let id = accepted(
        ledger.deposit(&user_a, &user_b, &arbiter, &token, 100_i128, TEST_DEADLINE_DAYS, START),
        &mut book,
    )
    .escrow_id;

    accepted(ledger.dispute(&user_a, id), &mut book);

    accepted(ledger.resolve(&random, id, &user_a), &mut book);
}

#[test]
fn test_claim_timeout() {
    let mut ledger = SafeHandsContract::new();
    let mut book = Book::new();
    let token = party("token");
    let user_a = party("user-a");
    let user_b = party("user-b");
    let arbiter = party("arbiter");

    book.mint(&user_a, 1000_i128);

    let mut timestamp = START;
    let id = accepted(
        ledger.deposit(&user_a, &user_b, &arbiter, &token, 200_i128, 1, timestamp),
        &mut book,
    )
    .escrow_id;

    timestamp = timestamp + 172800;

    accepted(ledger.claim_timeout(id, timestamp), &mut book);

    assert_eq!(book.balance(&user_a), 1000_i128);
    let escrow = ledger.get_escrow(id).unwrap();
    assert_eq!(escrow.state, EscrowState::Cancelled);
}

#[test]
#[should_panic(expected = "Deadline has not passed yet")]
fn test_claim_timeout_before_deadline() {
    let mut ledger = SafeHandsContract::new();
    let mut book = Book::new();
    let token = party("token");
    let user_a = party("user-a");
    let user_b = party("user-b");
    let arbiter = party("arbiter");

    book.mint(&user_a, 1000_i128);

    let id = accepted(
        ledger.deposit(&user_a, &user_b, &arbiter, &token, 100_i128, TEST_DEADLINE_DAYS, START),
        &mut book,
    )
    .escrow_id;

    accepted(ledger.claim_timeout(id, START), &mut book);
}

#[test]
fn scenario_mutual_approval_pays_the_freelancer() {
    let mut ledger = SafeHandsContract::new();
    let mut book = Book::new();
    let (a, b, arb, tkn) = (party("A"), party("B"), party("Arb"), party("TKN"));
    book.mint(&a, 100);

    let deposit = accepted(ledger.deposit(&a, &b, &arb, &tkn, 100, 30, START), &mut book);
    assert_eq!(deposit.escrow_id, 0);
    assert_eq!(
        deposit.transfer,
        Some(Transfer::Lock { token: tkn.clone(), from: a.clone(), amount: 100 })
    );
    assert_eq!(
        deposit.event,
        Some(EscrowEvent::Deposit {
            client: a.clone(),
            freelancer: b.clone(),
            escrow_id: 0,
            amount: 100
        })
    );
    assert_eq!(book.balance(&a), 0);
    assert_eq!(book.custody, 100);

    let first = accepted(ledger.approve(&a, 0), &mut book);
    assert_eq!(first, Receipt { escrow_id: 0, transfer: None, event: None });
    assert_eq!(book.balance(&b), 0);

    let second = accepted(ledger.approve(&b, 0), &mut book);
    assert_eq!(
        second.transfer,
        Some(Transfer::Payout { token: tkn.clone(), to: b.clone(), amount: 100 })
    );
    assert_eq!(
        second.event,
        Some(EscrowEvent::Release {
            client: a.clone(),
            freelancer: b.clone(),
            escrow_id: 0,
            amount: 100
        })
    );
    assert_eq!(book.balance(&b), 100);
    assert_eq!(book.custody, 0);
    assert_eq!(ledger.get_escrow(0).unwrap().state, EscrowState::Released);
}

#[test]
fn scenario_cancel_restores_the_client() {
    let mut ledger = SafeHandsContract::new();
    let mut book = Book::new();
    let (a, b, arb, tkn) = (party("A"), party("B"), party("Arb"), party("TKN"));
    book.mint(&a, 700);
    accepted(ledger.deposit(&a, &b, &arb, &tkn, 100, 30, START), &mut book);

    let k = accepted(ledger.deposit(&a, &b, &arb, &tkn, 500, 30, START), &mut book).escrow_id;
    assert_eq!(k, 1);
    assert_eq!(book.balance(&a), 100);

    let receipt = accepted(ledger.cancel(&a, k), &mut book);
    assert_eq!(
        receipt.transfer,
        Some(Transfer::Payout { token: tkn.clone(), to: a.clone(), amount: 500 })
    );
    assert_eq!(
        receipt.event,
        Some(EscrowEvent::Cancel { client: a.clone(), escrow_id: k, amount: 500 })
    );
    assert_eq!(book.balance(&a), 600);
    assert_eq!(ledger.get_escrow(k).unwrap().state, EscrowState::Cancelled);
    assert_eq!(ledger.get_escrow(0).unwrap().state, EscrowState::Funded);
}

#[test]
fn scenario_dispute_resolved_for_the_client() {
    let mut ledger = SafeHandsContract::new();
    let mut book = Book::new();
    let (a, b, arb, tkn) = (party("A"), party("B"), party("Arb"), party("TKN"));
    book.mint(&a, 500);
    let k = accepted(ledger.deposit(&a, &b, &arb, &tkn, 500, 30, START), &mut book).escrow_id;

    let raised = accepted(ledger.dispute(&a, k), &mut book);
    assert_eq!(raised.transfer, None);
    assert_eq!(raised.event, Some(EscrowEvent::Dispute { caller: a.clone(), escrow_id: k }));
    assert_eq!(ledger.get_escrow(k).unwrap().state, EscrowState::Disputed);
    assert_eq!(book.custody, 500);

    let settled = accepted(ledger.resolve(&arb, k, &a), &mut book);
    assert_eq!(
        settled.transfer,
        Some(Transfer::Payout { token: tkn.clone(), to: a.clone(), amount: 500 })
    );
    assert_eq!(
        settled.event,
        Some(EscrowEvent::Resolve {
            arbiter: arb.clone(),
            winner: a.clone(),
            escrow_id: k,
            amount: 500
        })
    );
    assert_eq!(book.balance(&a), 500);
    assert_eq!(ledger.get_escrow(k).unwrap().state, EscrowState::Resolved);
}

#[test]
fn scenario_timeout_refunds_once() {
    let mut ledger = SafeHandsContract::new();
    let mut book = Book::new();
    let (a, b, arb, tkn) = (party("A"), party("B"), party("Arb"), party("TKN"));
    book.mint(&a, 200);
    let id = accepted(ledger.deposit(&a, &b, &arb, &tkn, 200, 1, START), &mut book).escrow_id;
    assert_eq!(ledger.get_escrow(id).unwrap().deadline, 86_400);

    let later = START + 2 * 86_400;
    let receipt = accepted(ledger.claim_timeout(id, later), &mut book);
    assert_eq!(
        receipt.event,
        Some(EscrowEvent::Cancel { client: a.clone(), escrow_id: id, amount: 200 })
    );
    assert_eq!(book.balance(&a), 200);
    assert_eq!(ledger.get_escrow(id).unwrap().state, EscrowState::Cancelled);

    let again = ledger.claim_timeout(id, later);
    assert_eq!(again, Err(EscrowError::NotClaimable));
    assert_eq!(again.unwrap_err().kind(), ErrorKind::InvalidStateTransition);
    assert_eq!(book.balance(&a), 200);
    assert_eq!(book.custody, 0);
}

#[test]
fn refused_deposit_allocates_no_identifier() {
    let mut ledger = SafeHandsContract::new();
    let (a, b, arb, tkn) = (party("A"), party("B"), party("Arb"), party("TKN"));

    let zero = ledger.deposit(&a, &b, &arb, &tkn, 0, 30, START);
    assert_eq!(zero, Err(EscrowError::AmountNotPositive));
    let negative = ledger.deposit(&a, &b, &arb, &tkn, -5, 30, START);
    assert_eq!(negative, Err(EscrowError::AmountNotPositive));
    let short = ledger.deposit(&a, &b, &arb, &tkn, 100, 0, START);
    assert_eq!(short, Err(EscrowError::DeadlineTooShort));
    let both = ledger.deposit(&a, &b, &arb, &tkn, 0, 0, START);
    assert_eq!(both, Err(EscrowError::AmountNotPositive));
    let far = ledger.deposit(&a, &b, &arb, &tkn, 100, u64::MAX, START);
    assert_eq!(far, Err(EscrowError::DeadlineOutOfRange));
    let late = ledger.deposit(&a, &b, &arb, &tkn, 100, 1, u64::MAX - 86_399);
    assert_eq!(late, Err(EscrowError::DeadlineOutOfRange));
    for refused in [zero, negative, short, both, far, late] {
        assert_eq!(refused.unwrap_err().kind(), ErrorKind::InvalidInput);
    }

    assert_eq!(ledger.next_id(), 0);
    assert_eq!(ledger.get_escrow(0), Err(EscrowError::EscrowNotFound));
    assert!(ledger.get_user_escrows(&a).is_empty());

    let first = ledger.deposit(&a, &b, &arb, &tkn, 1, 1, START).unwrap();
    assert_eq!(first.escrow_id, 0);
    assert_eq!(ledger.next_id(), 1);
}

#[test]
fn deadline_is_days_after_the_deposit() {
    let mut ledger = SafeHandsContract::new();
    let (a, b, arb, tkn) = (party("A"), party("B"), party("Arb"), party("TKN"));
    let now = 1_700_000_000;
    let id = ledger.deposit(&a, &b, &arb, &tkn, 42, 30, now).unwrap().escrow_id;
    let escrow = ledger.get_escrow(id).unwrap();
    assert_eq!(escrow.deadline, 1_702_592_000);
    assert_eq!(escrow.client, a);
    assert_eq!(escrow.freelancer, b);
    assert_eq!(escrow.arbiter, arb);
    assert_eq!(escrow.token, tkn);
    assert_eq!(escrow.amount, 42);
    assert!(!escrow.approved_by_client);
    assert!(!escrow.approved_by_freelancer);

    let edge = ledger.deposit(&a, &b, &arb, &tkn, 1, 1, u64::MAX - 86_400).unwrap().escrow_id;
    assert_eq!(ledger.get_escrow(edge).unwrap().deadline, u64::MAX);
}

#[test]
fn second_approval_changes_nothing() {
    let mut ledger = SafeHandsContract::new();
    let (a, b, arb, tkn) = (party("A"), party("B"), party("Arb"), party("TKN"));
    let id = ledger.deposit(&a, &b, &arb, &tkn, 100, 30, START).unwrap().escrow_id;

    ledger.approve(&b, id).unwrap();
    let once = ledger.get_escrow(id).unwrap();
    let repeat = ledger.approve(&b, id).unwrap();
    assert_eq!(repeat, Receipt { escrow_id: id, transfer: None, event: None });
    assert_eq!(ledger.get_escrow(id).unwrap(), once);
    assert!(once.approved_by_freelancer && !once.approved_by_client);

    ledger.approve(&a, id).unwrap();
    let released = ledger.get_escrow(id).unwrap();
    assert_eq!(released.state, EscrowState::Released);
    assert_eq!(ledger.approve(&a, id), Err(EscrowError::NotApprovable));
    assert_eq!(ledger.approve(&b, id), Err(EscrowError::NotApprovable));
    assert_eq!(ledger.get_escrow(id).unwrap(), released);
}

#[test]
fn one_approval_never_releases() {
    let mut ledger = SafeHandsContract::new();
    let (a, b, arb, tkn) = (party("A"), party("B"), party("Arb"), party("TKN"));
    let id = ledger.deposit(&a, &b, &arb, &tkn, 100, 30, START).unwrap().escrow_id;
    for _ in 0..3 {
        let receipt = ledger.approve(&a, id).unwrap();
        assert_eq!(receipt.transfer, None);
        assert_eq!(ledger.get_escrow(id).unwrap().state, EscrowState::Funded);
    }
    assert_eq!(ledger.approve(&arb, id), Err(EscrowError::ApproverNotParty));
    assert_eq!(ledger.approve(&arb, id).unwrap_err().kind(), ErrorKind::Unauthorized);
}

#[test]
fn approval_releases_a_disputed_escrow() {
    let mut ledger = SafeHandsContract::new();
    let (a, b, arb, tkn) = (party("A"), party("B"), party("Arb"), party("TKN"));
    let id = ledger.deposit(&a, &b, &arb, &tkn, 100, 30, START).unwrap().escrow_id;
    ledger.dispute(&b, id).unwrap();
    ledger.approve(&a, id).unwrap();
    assert_eq!(ledger.get_escrow(id).unwrap().state, EscrowState::Disputed);
    let receipt = ledger.approve(&b, id).unwrap();
    assert_eq!(
        receipt.transfer,
        Some(Transfer::Payout { token: tkn.clone(), to: b.clone(), amount: 100 })
    );
    assert_eq!(ledger.get_escrow(id).unwrap().state, EscrowState::Released);
}

#[test]
fn cancel_is_the_clients_and_only_while_funded() {
    let mut ledger = SafeHandsContract::new();
    let (a, b, arb, tkn) = (party("A"), party("B"), party("Arb"), party("TKN"));
    let id = ledger.deposit(&a, &b, &arb, &tkn, 100, 30, START).unwrap().escrow_id;

    assert_eq!(ledger.cancel(&b, id), Err(EscrowError::CancelNotByClient));
    assert_eq!(ledger.cancel(&arb, id), Err(EscrowError::CancelNotByClient));
    assert_eq!(ledger.cancel(&a, 9), Err(EscrowError::EscrowNotFound));

    ledger.approve(&a, id).unwrap();
    ledger.approve(&b, id).unwrap_or_else(|e| panic!("{}", e.message()));
    assert_eq!(ledger.cancel(&a, id), Err(EscrowError::NotCancellable));

    let other = ledger.deposit(&a, &b, &arb, &tkn, 100, 30, START).unwrap().escrow_id;
    ledger.approve(&b, other).unwrap();
    let blocked = ledger.cancel(&a, other);
    assert_eq!(blocked, Err(EscrowError::FreelancerApproved));
    assert_eq!(blocked.unwrap_err().kind(), ErrorKind::InvalidStateTransition);
    assert_eq!(ledger.get_escrow(other).unwrap().state, EscrowState::Funded);

    let third = ledger.deposit(&a, &b, &arb, &tkn, 100, 30, START).unwrap().escrow_id;
    ledger.dispute(&a, third).unwrap();
    assert_eq!(ledger.cancel(&a, third), Err(EscrowError::NotCancellable));

    let fourth = ledger.deposit(&a, &b, &arb, &tkn, 100, 30, START).unwrap().escrow_id;
    ledger.approve(&a, fourth).unwrap();
    assert!(ledger.cancel(&a, fourth).is_ok());
    let cancelled = ledger.get_escrow(fourth).unwrap();
    assert_eq!(cancelled.state, EscrowState::Cancelled);
    assert!(cancelled.approved_by_client);
}

#[test]
fn timeout_waits_for_the_deadline() {
    let mut ledger = SafeHandsContract::new();
    let (a, b, arb, tkn) = (party("A"), party("B"), party("Arb"), party("TKN"));
    let id = ledger.deposit(&a, &b, &arb, &tkn, 100, 2, 1_000).unwrap().escrow_id;
    let deadline = 1_000 + 2 * 86_400;
    assert_eq!(ledger.get_escrow(id).unwrap().deadline, deadline);

    assert_eq!(ledger.claim_timeout(id, 1_000), Err(EscrowError::DeadlineNotPassed));
    let early = ledger.claim_timeout(id, deadline - 1);
    assert_eq!(early, Err(EscrowError::DeadlineNotPassed));
    assert_eq!(early.unwrap_err().kind(), ErrorKind::InvalidStateTransition);
    assert_eq!(ledger.claim_timeout(7, deadline), Err(EscrowError::EscrowNotFound));
    assert_eq!(ledger.get_escrow(id).unwrap().state, EscrowState::Funded);

    let receipt = ledger.claim_timeout(id, deadline).unwrap();
    assert_eq!(
        receipt.transfer,
        Some(Transfer::Payout { token: tkn.clone(), to: a.clone(), amount: 100 })
    );
    assert_eq!(ledger.get_escrow(id).unwrap().state, EscrowState::Cancelled);
}

#[test]
fn a_dispute_freezes_the_timeout() {
    let mut ledger = SafeHandsContract::new();
    let (a, b, arb, tkn) = (party("A"), party("B"), party("Arb"), party("TKN"));
    let id = ledger.deposit(&a, &b, &arb, &tkn, 100, 1, START).unwrap().escrow_id;
    ledger.dispute(&b, id).unwrap();
    assert_eq!(ledger.claim_timeout(id, u64::MAX), Err(EscrowError::NotClaimable));
    assert_eq!(ledger.dispute(&a, id), Err(EscrowError::NotDisputable));
    assert_eq!(ledger.dispute(&arb, id), Err(EscrowError::DisputeNotByParty));
    assert_eq!(ledger.get_escrow(id).unwrap().state, EscrowState::Disputed);
}

#[test]
fn resolve_is_the_arbiters_and_for_a_party() {
    let mut ledger = SafeHandsContract::new();
    let (a, b, arb, tkn) = (party("A"), party("B"), party("Arb"), party("TKN"));
    let stranger = party("stranger");
    let id = ledger.deposit(&a, &b, &arb, &tkn, 300, 30, START).unwrap().escrow_id;

    for caller in [&a, &b, &tkn, &stranger] {
        let refused = ledger.resolve(caller, id, &a);
        assert_eq!(refused, Err(EscrowError::NotArbiter));
        assert_eq!(refused.unwrap_err().kind(), ErrorKind::Unauthorized);
    }
    for winner in [&arb, &tkn, &stranger] {
        let refused = ledger.resolve(&arb, id, winner);
        assert_eq!(refused, Err(EscrowError::WinnerNotParty));
        assert_eq!(refused.unwrap_err().kind(), ErrorKind::InvalidInput);
    }
    assert_eq!(ledger.resolve(&arb, 4, &a), Err(EscrowError::EscrowNotFound));
    assert_eq!(ledger.get_escrow(id).unwrap().state, EscrowState::Funded);

    let receipt = ledger.resolve(&arb, id, &b).unwrap();
    assert_eq!(
        receipt.transfer,
        Some(Transfer::Payout { token: tkn.clone(), to: b.clone(), amount: 300 })
    );
    assert_eq!(ledger.get_escrow(id).unwrap().state, EscrowState::Resolved);
    assert_eq!(ledger.resolve(&arb, id, &a), Err(EscrowError::NotResolvable));
}

#[test]
fn index_lists_each_identitys_escrows_in_deposit_order() {
    let mut ledger = SafeHandsContract::new();
    let (a, b, c, arb, tkn) = (party("A"), party("B"), party("C"), party("Arb"), party("TKN"));

    ledger.deposit(&a, &b, &arb, &tkn, 10, 1, START).unwrap();
    ledger.deposit(&b, &c, &arb, &tkn, 20, 1, START).unwrap();
    assert!(ledger.deposit(&a, &c, &arb, &tkn, 0, 1, START).is_err());
    ledger.deposit(&c, &a, &arb, &tkn, 30, 1, START).unwrap();
    ledger.deposit(&a, &b, &arb, &tkn, 40, 1, START).unwrap();

    assert_eq!(ledger.get_user_escrows(&a), vec![0, 2, 3]);
    assert_eq!(ledger.get_user_escrows(&b), vec![0, 1, 3]);
    assert_eq!(ledger.get_user_escrows(&c), vec![1, 2]);
    assert_eq!(ledger.get_user_escrows(&arb), Vec::<u64>::new());
    assert_eq!(ledger.get_user_escrows(&party("nobody")), Vec::<u64>::new());

    ledger.cancel(&a, 0).unwrap();
    ledger.approve(&b, 1).unwrap();
    ledger.approve(&c, 1).unwrap();
    ledger.resolve(&arb, 2, &a).unwrap();
    assert_eq!(ledger.get_user_escrows(&a), vec![0, 2, 3]);
    assert_eq!(ledger.get_user_escrows(&b), vec![0, 1, 3]);
    assert_eq!(ledger.get_user_escrows(&c), vec![1, 2]);
}

#[test]
fn an_identity_on_both_sides_is_indexed_for_each() {
    let mut ledger = SafeHandsContract::new();
    let (a, arb, tkn) = (party("A"), party("Arb"), party("TKN"));
    let id = ledger.deposit(&a, &a, &arb, &tkn, 10, 1, START).unwrap().escrow_id;
    assert_eq!(ledger.get_user_escrows(&a), vec![id, id]);

    ledger.approve(&a, id).unwrap();
    let escrow = ledger.get_escrow(id).unwrap();
    assert!(escrow.approved_by_client);
    assert!(!escrow.approved_by_freelancer);
    assert_eq!(escrow.state, EscrowState::Funded);
}

#[test]
fn custody_matches_what_the_open_escrows_hold() {
    let mut ledger = SafeHandsContract::new();
    let mut book = Book::new();
    let (a, b, arb, tkn) = (party("A"), party("B"), party("Arb"), party("TKN"));
    book.mint(&a, 1_000);

    for amount in [100, 200, 300, 400] {
        accepted(ledger.deposit(&a, &b, &arb, &tkn, amount, 1, START), &mut book);
    }
    assert_eq!(book.custody, 1_000);
    accepted(ledger.cancel(&a, 0), &mut book);
    assert_eq!(book.custody, 900);
    accepted(ledger.dispute(&b, 1), &mut book);
    assert_eq!(book.custody, 900);
    accepted(ledger.resolve(&arb, 1, &b), &mut book);
    assert_eq!(book.custody, 700);
    accepted(ledger.claim_timeout(2, 86_400), &mut book);
    assert_eq!(book.custody, 400);
    accepted(ledger.approve(&a, 3), &mut book);
    accepted(ledger.approve(&b, 3), &mut book);
    assert_eq!(book.custody, 0);
    assert_eq!(book.balance(&a), 400);
    assert_eq!(book.balance(&b), 600);

    for id in 0..4 {
        assert!(ledger.approve(&a, id).is_err());
        assert!(ledger.cancel(&a, id).is_err());
        assert!(ledger.dispute(&a, id).is_err());
        assert!(ledger.resolve(&arb, id, &a).is_err());
        assert!(ledger.claim_timeout(id, u64::MAX).is_err());
    }
    assert_eq!(book.custody, 0);
}
