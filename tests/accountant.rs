use ledger::accountant::Accountant;
use ledger::amount::MonetaryAmount;
use ledger::error::LedgerError;
use ledger::transaction::{Transaction, TransactionType};

fn dec(text: &str) -> MonetaryAmount {
    MonetaryAmount::parse(text).unwrap()
}

fn create_transaction(tx: u32, client: u16, amount: &str, type_: &str) -> Result<Transaction, String> {
    let kind = TransactionType::from_tag(type_).ok_or(format!("unknown type {type_}"))?;
    Ok(Transaction::new(tx, client, amount.to_string(), kind))
}

fn apply(accountant: &mut Accountant, tx: u32, client: u16, amount: &str, type_: &str) {
    accountant.apply_bookkeeping(create_transaction(tx, client, amount, type_).unwrap()).unwrap();
}

#[test]
fn test_accountant_export_writes_all_clients() {
    let mut accountant = Accountant::new();
    apply(&mut accountant, 1, 1, "0", "deposit");
    apply(&mut accountant, 2, 2, "0", "deposit");

    let records = accountant.export();

    assert_eq!(records.len(), 2);

    let first = records.first();
    assert!(first.is_some());

    let second = records.get(1);
    assert!(second.is_some());
}

#[test]
fn test_apply_deposit() -> Result<(), LedgerError> {
    let mut accountant = Accountant::new();
    let tx = create_transaction(1, 1, "100.0", "deposit").unwrap();

    accountant.apply_bookkeeping(tx)?;

    let client = accountant.client_balance(1).unwrap();
    assert_eq!(*client.available(), dec("100.0"));
    assert_eq!(*client.total(), dec("100.0"));
    Ok(())
}

#[test]
fn test_apply_withdrawal() -> Result<(), LedgerError> {
    let mut accountant = Accountant::new();
    accountant.apply_bookkeeping(create_transaction(1, 1, "200.0", "deposit").unwrap())?;
    accountant.apply_bookkeeping(create_transaction(2, 1, "50.0", "withdrawal").unwrap())?;

    let client = accountant.client_balance(1).unwrap();
    assert_eq!(*client.available(), dec("150.0"));
    assert_eq!(*client.total(), dec("150.0"));
    Ok(())
}

#[test]
fn test_apply_dispute_and_resolve() -> Result<(), LedgerError> {
    let mut accountant = Accountant::new();
    accountant.apply_bookkeeping(create_transaction(1, 1, "300.0", "deposit").unwrap())?;
    accountant.apply_bookkeeping(create_transaction(2, 1, "100.0", "deposit").unwrap())?;
    accountant.apply_bookkeeping(create_transaction(1, 1, "", "dispute").unwrap())?;

    let client = accountant.client_balance(1).unwrap();
    assert_eq!(*client.available(), dec("100.0"));
    assert_eq!(*client.held(), dec("300.0"));
    assert_eq!(*client.total(), dec("400.0"));

    accountant.apply_bookkeeping(create_transaction(1, 1, "", "resolve").unwrap())?;
    let client = accountant.client_balance(1).unwrap();
    assert_eq!(*client.available(), dec("400.0"));
    assert_eq!(*client.total(), dec("400.0"));
    assert_eq!(*client.held(), dec("0.0"));
    Ok(())
}

#[test]
fn test_apply_chargeback_locks_account() -> Result<(), LedgerError> {
    let mut accountant = Accountant::new();
    accountant.apply_bookkeeping(create_transaction(1, 1, "400.0", "deposit").unwrap())?;
    accountant.apply_bookkeeping(create_transaction(1, 1, "", "dispute").unwrap())?;
    accountant.apply_bookkeeping(create_transaction(2, 1, "200.0", "deposit").unwrap())?;
    accountant.apply_bookkeeping(create_transaction(2, 1, "", "dispute").unwrap())?;
    accountant.apply_bookkeeping(create_transaction(2, 1, "", "chargeback").unwrap())?;

    let client = accountant.client_balance(1).unwrap();
    assert_eq!(*client.total(), dec("400.0"));
    assert_eq!(*client.held(), dec("400.0"));
    assert_eq!(*client.available(), dec("0.0"));
    assert!(*client.locked());
    Ok(())
}

#[test]
fn test_cannot_deposit_after_chargeback() -> Result<(), LedgerError> {
    let mut accountant = Accountant::new();
    accountant.apply_bookkeeping(create_transaction(1, 1, "400.0", "deposit").unwrap())?;
    accountant.apply_bookkeeping(create_transaction(1, 1, "", "dispute").unwrap())?;
    accountant.apply_bookkeeping(create_transaction(2, 1, "200.0", "deposit").unwrap())?;
    accountant.apply_bookkeeping(create_transaction(2, 1, "", "dispute").unwrap())?;
    accountant.apply_bookkeeping(create_transaction(2, 1, "", "chargeback").unwrap())?;

    let client = accountant.client_balance(1).unwrap();
    assert_eq!(*client.total(), dec("400.0"));
    assert_eq!(*client.held(), dec("400.0"));
    assert_eq!(*client.available(), dec("0.0"));
    assert!(*client.locked());

    accountant.apply_bookkeeping(create_transaction(3, 1, "500.0", "deposit").unwrap())?;
    assert_eq!(accountant.transactions_rejected().len(), 1);
    assert_eq!(accountant.transactions_rejected()[0], 3);
    Ok(())
}

#[test]
fn four_deposits_sum_exactly() {
    let mut accountant = Accountant::new();
    apply(&mut accountant, 1, 9, "100.1234", "deposit");
    apply(&mut accountant, 2, 9, "0.1", "deposit");
    apply(&mut accountant, 3, 9, "1.0", "deposit");
    apply(&mut accountant, 4, 9, "1.1", "deposit");
    let client = accountant.client_balance(9).unwrap();
    assert_eq!(*client.available(), dec("102.3234"));
    assert_eq!(*client.total(), dec("102.3234"));
    assert_eq!(*client.held(), dec("0"));
    assert_eq!(client.total().to_canonical_string(), "102.3234");
}

#[test]
fn deposit_then_withdraw() {
    let mut accountant = Accountant::new();
    apply(&mut accountant, 1, 1, "200.5000", "deposit");
    apply(&mut accountant, 2, 1, "50.5000", "withdrawal");
    let client = accountant.client_balance(1).unwrap();
    assert_eq!(client.available().to_canonical_string(), "150.0000");
    assert_eq!(client.total().to_canonical_string(), "150.0000");
}

#[test]
fn dispute_holds_the_referenced_amount() {
    let mut accountant = Accountant::new();
    apply(&mut accountant, 1, 1, "100", "deposit");
    apply(&mut accountant, 2, 1, "50", "deposit");
    apply(&mut accountant, 2, 1, "", "dispute");
    let client = accountant.client_balance(1).unwrap();
    assert_eq!(*client.available(), dec("100"));
    assert_eq!(*client.held(), dec("50"));
    assert_eq!(*client.total(), dec("150"));
}

#[test]
fn dispute_then_resolve_restores() {
    let mut accountant = Accountant::new();
    apply(&mut accountant, 1, 1, "200", "deposit");
    apply(&mut accountant, 1, 1, "", "dispute");
    apply(&mut accountant, 1, 1, "", "resolve");
    let client = accountant.client_balance(1).unwrap();
    assert_eq!(*client.available(), dec("200"));
    assert_eq!(*client.held(), dec("0"));
    assert_eq!(*client.total(), dec("200"));
    assert!(accountant.transactions_rejected().is_empty());
}

#[test]
fn chargeback_locks_and_later_deposit_is_rejected() {
    let mut accountant = Accountant::new();
    apply(&mut accountant, 1, 1, "70", "deposit");
    apply(&mut accountant, 2, 1, "50", "deposit");
    apply(&mut accountant, 2, 1, "", "dispute");
    apply(&mut accountant, 2, 1, "", "chargeback");
    let client = accountant.client_balance(1).unwrap();
    assert_eq!(*client.total(), dec("70"));
    assert_eq!(*client.held(), dec("0"));
    assert!(*client.locked());
    apply(&mut accountant, 3, 1, "10", "deposit");
    assert_eq!(accountant.client_balance(1).unwrap(), client);
    assert_eq!(accountant.transactions_rejected().as_slice(), &[3]);
}

#[test]
fn withdrawal_beyond_available_is_rejected_and_run_continues() {
    let mut accountant = Accountant::new();
    apply(&mut accountant, 1, 1, "50", "deposit");
    apply(&mut accountant, 2, 1, "100", "withdrawal");
    let client = accountant.client_balance(1).unwrap();
    assert_eq!(*client.available(), dec("50"));
    assert_eq!(*client.total(), dec("50"));
    assert_eq!(accountant.transactions_rejected().as_slice(), &[2]);
    apply(&mut accountant, 3, 2, "5", "deposit");
    assert_eq!(*accountant.client_balance(2).unwrap().available(), dec("5"));
}

#[test]
fn duplicate_deposit_id_is_fatal_and_changes_nothing() {
    let mut accountant = Accountant::new();
    apply(&mut accountant, 1, 1, "50", "deposit");
    let before = accountant.export();
    let res = accountant.apply_bookkeeping(create_transaction(1, 2, "10", "deposit").unwrap());
    assert_eq!(res, Err(LedgerError::TxDuplicated(1)));
    let res = accountant.apply_bookkeeping(create_transaction(1, 1, "10", "withdrawal").unwrap());
    assert_eq!(res, Err(LedgerError::TxDuplicated(1)));
    assert_eq!(accountant.export(), before);
    assert!(accountant.client_balance(2).is_none());
}

#[test]
fn repeated_dispute_is_not_a_duplicate() {
    let mut accountant = Accountant::new();
    apply(&mut accountant, 1, 1, "30", "deposit");
    apply(&mut accountant, 1, 1, "", "dispute");
    apply(&mut accountant, 1, 1, "", "dispute");
    let client = accountant.client_balance(1).unwrap();
    assert_eq!(*client.held(), dec("30"));
    assert_eq!(*client.available(), dec("0"));
    assert_eq!(accountant.transactions_rejected().as_slice(), &[1]);
}

#[test]
fn dispute_of_unknown_or_foreign_transaction_is_rejected() {
    let mut accountant = Accountant::new();
    apply(&mut accountant, 1, 1, "30", "deposit");
    apply(&mut accountant, 1, 2, "", "dispute");
    apply(&mut accountant, 9, 1, "", "dispute");
    apply(&mut accountant, 9, 1, "", "chargeback");
    assert_eq!(*accountant.client_balance(1).unwrap().available(), dec("30"));
    assert_eq!(*accountant.client_balance(2).unwrap().total(), dec("0"));
    assert_eq!(accountant.transactions_rejected().as_slice(), &[1, 9, 9]);
}

#[test]
fn malformed_deposit_amount_aborts_and_changes_nothing() {
    let mut accountant = Accountant::new();
    let res = accountant.apply_bookkeeping(create_transaction(1, 1, "abc", "deposit").unwrap());
    assert_eq!(res, Err(LedgerError::InvalidAmount));
    let res = accountant.apply_bookkeeping(create_transaction(2, 1, "1.23456", "withdrawal").unwrap());
    assert_eq!(res, Err(LedgerError::InvalidAmount));
    assert!(accountant.client_balance(1).is_none());
    assert!(accountant.transactions_rejected().is_empty());
    apply(&mut accountant, 1, 1, "2.50000", "deposit");
    assert_eq!(*accountant.client_balance(1).unwrap().total(), dec("2.5"));
}

fn run_stream() -> Vec<ledger::balance::ClientBalance> {
    let mut accountant = Accountant::new();
    apply(&mut accountant, 1, 3, "10", "deposit");
    apply(&mut accountant, 2, 1, "20", "deposit");
    apply(&mut accountant, 3, 2, "30", "deposit");
    apply(&mut accountant, 2, 1, "", "dispute");
    apply(&mut accountant, 4, 3, "5", "withdrawal");
    accountant.export()
}

#[test]
fn same_stream_gives_same_snapshot() {
    let a = run_stream();
    let b = run_stream();
    assert_eq!(a, b);
    let clients: Vec<u16> = a.iter().map(|c| *c.client()).collect();
    assert_eq!(clients, vec![3, 1, 2]);
    assert_eq!(*a[1].held(), dec("20"));
    assert_eq!(*a[0].available(), dec("5"));
}

#[test]
fn replayed_dispute_holds_again_while_funds_cover_it() {
    let mut accountant = Accountant::new();
    apply(&mut accountant, 1, 1, "30", "deposit");
    apply(&mut accountant, 2, 1, "40", "deposit");
    apply(&mut accountant, 1, 1, "", "dispute");
    apply(&mut accountant, 1, 1, "", "dispute");
    let client = accountant.client_balance(1).unwrap();
    assert_eq!(*client.held(), dec("60"));
    assert_eq!(*client.available(), dec("10"));
    assert_eq!(*client.total(), dec("70"));
    apply(&mut accountant, 1, 1, "", "dispute");
    assert_eq!(accountant.client_balance(1).unwrap(), client);
    assert_eq!(accountant.transactions_rejected().as_slice(), &[1]);
}
