use transfer_money::context::{
    MoneyDestinationRoleMethods, MoneyDestinationRoleRequirement, MoneySourceRoleMethods,
    MoneySourceRoleRequirement, TransferMoney,
};
use transfer_money::data::Account;

fn account(entries: &[i64]) -> Account {
    Account { ledger: entries.to_vec() }
}

#[test]
fn demo_transfer_moves_two_hundred() {
    let mut source = account(&[1000]);
    let mut destination = account(&[100]);
    assert_eq!(source.current_balance(), 1000);
    assert_eq!(destination.current_balance(), 100);
    {
        let mut transfer = TransferMoney::new(&mut source, &mut destination, 200);
        transfer.execute();
    }
    assert_eq!(source.current_balance(), 800);
    assert_eq!(destination.current_balance(), 300);
    assert_eq!(source.ledger, vec![1000, -200]);
    assert_eq!(destination.ledger, vec![100, 200]);
}

#[test]
fn insufficient_funds_changes_nothing() {
    let mut source = account(&[50]);
    let mut destination = account(&[0]);
    {
        let mut transfer = TransferMoney::new(&mut source, &mut destination, 200);
        transfer.execute();
    }
    assert_eq!(source.current_balance(), 50);
    assert_eq!(destination.current_balance(), 0);
    assert_eq!(source.ledger, vec![50]);
    assert_eq!(destination.ledger, vec![0]);
}

#[test]
fn empty_ledger_has_zero_balance() {
    assert_eq!(account(&[]).current_balance(), 0);
}

#[test]
fn balance_is_the_sum_in_any_order() {
    assert_eq!(account(&[3, -5, 10]).current_balance(), 8);
    assert_eq!(account(&[10, 3, -5]).current_balance(), 8);
    assert_eq!(account(&[-5, 10, 3]).current_balance(), 8);
}

#[test]
fn balance_of_extreme_entries_does_not_overflow() {
    let big = account(&[i64::MAX, i64::MAX, i64::MAX]);
    assert_eq!(big.current_balance(), 3 * (i64::MAX as i128));
    let small = account(&[i64::MIN, i64::MIN]);
    assert_eq!(small.current_balance(), 2 * (i64::MIN as i128));
}

#[test]
fn successful_transfer_conserves_the_total() {
    let mut source = account(&[400, -100, 50]);
    let mut destination = account(&[-20, 70]);
    let total_before = source.current_balance() + destination.current_balance();
    {
        let mut transfer = TransferMoney::new(&mut source, &mut destination, 275);
        transfer.execute();
    }
    assert_eq!(source.current_balance(), 75);
    assert_eq!(destination.current_balance(), 325);
    assert_eq!(source.current_balance() + destination.current_balance(), total_before);
}

#[test]
fn transfer_of_the_whole_balance_succeeds() {
    let mut source = account(&[120]);
    let mut destination = account(&[]);
    {
        let mut transfer = TransferMoney::new(&mut source, &mut destination, 120);
        transfer.execute();
    }
    assert_eq!(source.current_balance(), 0);
    assert_eq!(destination.current_balance(), 120);
    assert_eq!(destination.ledger, vec![120]);
}

#[test]
fn transfer_one_over_the_balance_is_refused() {
    let mut source = account(&[120]);
    let mut destination = account(&[5]);
    {
        let mut transfer = TransferMoney::new(&mut source, &mut destination, 121);
        transfer.execute();
    }
    assert_eq!(source.ledger, vec![120]);
    assert_eq!(destination.ledger, vec![5]);
}

#[test]
fn zero_transfer_appends_zero_entries() {
    let mut source = account(&[30]);
    let mut destination = account(&[7]);
    {
        let mut transfer = TransferMoney::new(&mut source, &mut destination, 0);
        transfer.execute();
    }
    assert_eq!(source.ledger, vec![30, 0]);
    assert_eq!(destination.ledger, vec![7, 0]);
    assert_eq!(source.current_balance(), 30);
    assert_eq!(destination.current_balance(), 7);
}

#[test]
fn zero_transfer_from_overdrawn_source_is_refused() {
    let mut source = account(&[-5]);
    let mut destination = account(&[7]);
    {
        let mut transfer = TransferMoney::new(&mut source, &mut destination, 0);
        transfer.execute();
    }
    assert_eq!(source.ledger, vec![-5]);
    assert_eq!(destination.ledger, vec![7]);
}

#[test]
fn self_transfer_adds_debit_and_credit() {
    let mut only = account(&[500]);
    only.decrease_balance(80);
    only.increase_balance(80);
    assert_eq!(only.ledger, vec![500, -80, 80]);
    assert_eq!(only.current_balance(), 500);
}

#[test]
fn roles_report_and_change_balances() {
    let mut source = account(&[10, 20]);
    assert_eq!(source.available_balance(), 30);
    source.decrease_balance(45);
    assert_eq!(source.ledger, vec![10, 20, -45]);
    assert_eq!(source.available_balance(), -15);
    let mut destination = account(&[]);
    destination.increase_balance(9);
    destination.receive_transfer(1);
    assert_eq!(destination.ledger, vec![9, 1]);
}

#[test]
fn send_transfer_between_accounts() {
    let mut source = account(&[60]);
    let mut destination = account(&[1]);
    source.send_transfer(25, &mut destination);
    assert_eq!(source.ledger, vec![60, -25]);
    assert_eq!(destination.ledger, vec![1, 25]);
    source.send_transfer(36, &mut destination);
    assert_eq!(source.ledger, vec![60, -25]);
    assert_eq!(destination.ledger, vec![1, 25]);
}
