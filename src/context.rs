//! The transfer use case: a money source, a money destination, and the
//! operation that moves an amount from one to the other.
use vstd::prelude::*;

use crate::data::{lemma_sum_push, Account};

verus! {

/// What an object must offer to act as the source of a transfer.
pub trait MoneySourceRoleRequirement: Sized {
    /// The balance that the source can give away.
    spec fn spec_available(&self) -> int;

    /// Whether `self` is `before` with `amount` taken from it.
    spec fn is_debit_of(self, before: Self, amount: i64) -> bool;

    /// Reports the balance that the source can give away.
    fn available_balance(&self) -> (r: i128)
        ensures
            r == self.spec_available(),
    ;

    /// Takes `amount` from the source, whatever its balance.
    fn decrease_balance(&mut self, amount: i64)
        requires
            amount != i64::MIN,
        ensures
            final(self).is_debit_of(*old(self), amount),
            final(self).spec_available() == old(self).spec_available() - amount,
    ;
}

/// What an object must offer to act as the destination of a transfer.
pub trait MoneyDestinationRoleRequirement: Sized {
    /// The balance of the destination.
    spec fn spec_held(&self) -> int;

    /// Whether `self` is `before` with `amount` given to it.
    spec fn is_credit_of(self, before: Self, amount: i64) -> bool;

    /// Gives `amount` to the destination. It cannot fail.
    fn increase_balance(&mut self, amount: i64)
        ensures
            final(self).is_credit_of(*old(self), amount),
            final(self).spec_held() == old(self).spec_held() + amount,
    ;
}

/// The behaviour that every destination gets.
pub trait MoneyDestinationRoleMethods: MoneyDestinationRoleRequirement {
    /// Receives `amount`: the destination is credited with it.
    fn receive_transfer(&mut self, amount: i64)
        ensures
            final(self).is_credit_of(*old(self), amount),
            final(self).spec_held() == old(self).spec_held() + amount,
    {
        self.increase_balance(amount);
    }
}

impl<T: MoneyDestinationRoleRequirement> MoneyDestinationRoleMethods for T {}

/// The behaviour that every source gets.
pub trait MoneySourceRoleMethods: MoneySourceRoleRequirement {
    /// Sends `amount` to `sink` when the source can cover it: the source is
    /// debited, then the sink credited. When it cannot, neither changes.
    /// Nothing is undone after the debit: this relies on a credit never
    /// failing, which `increase_balance` guarantees.
    fn send_transfer<D: MoneyDestinationRoleMethods>(&mut self, amount: i64, sink: &mut D)
        requires
            amount != i64::MIN,
        ensures
            old(self).spec_available() >= amount ==> {
                &&& final(self).is_debit_of(*old(self), amount)
                &&& final(sink).is_credit_of(*old(sink), amount)
                &&& final(self).spec_available() == old(self).spec_available() - amount
                &&& final(sink).spec_held() == old(sink).spec_held() + amount
            },
            old(self).spec_available() < amount ==> {
                &&& *final(self) == *old(self)
                &&& *final(sink) == *old(sink)
            },
    {
        if self.available_balance() >= amount as i128 {
            self.decrease_balance(amount);
            sink.receive_transfer(amount);
        }
    }
}

impl<T: MoneySourceRoleRequirement> MoneySourceRoleMethods for T {}

/// A transfer of `amount` from `source` to `destination`, ready to run.
pub struct TransferMoney<'a> {
    pub source: &'a mut Account,
    pub destination: &'a mut Account,
    pub amount: i64,
}

impl<'a> TransferMoney<'a> {
    /// Sets up a transfer of a non-negative `amount`.
    pub fn new(source: &'a mut Account, destination: &'a mut Account, amount: i64) -> (r: TransferMoney<'a>)
        requires
            0 <= amount,
        ensures
            *r.source == *old(source),
            *r.destination == *old(destination),
            *final(r.source) == *final(source),
            *final(r.destination) == *final(destination),
            r.amount == amount,
    {
        TransferMoney { source, destination, amount }
    }

    /// Runs the transfer.
    pub fn execute(&mut self)
        requires
            0 <= old(self).amount,
        ensures
            final(self).amount == old(self).amount,
            *final(final(self).source) == *final(old(self).source),
            *final(final(self).destination) == *final(old(self).destination),
            old(self).source.balance() >= old(self).amount ==> {
                &&& final(self).source.ledger@ == old(self).source.ledger@.push((-old(self).amount) as i64)
                &&& final(self).destination.ledger@ == old(self).destination.ledger@.push(old(self).amount)
                &&& final(self).source.balance() == old(self).source.balance() - old(self).amount
                &&& final(self).destination.balance() == old(self).destination.balance() + old(self).amount
                &&& final(self).source.balance() + final(self).destination.balance()
                    == old(self).source.balance() + old(self).destination.balance()
            },
            old(self).amount == 0 && old(self).source.balance() >= 0 ==> {
                &&& final(self).source.ledger@ == old(self).source.ledger@.push(0)
                &&& final(self).destination.ledger@ == old(self).destination.ledger@.push(0)
                &&& final(self).source.balance() == old(self).source.balance()
                &&& final(self).destination.balance() == old(self).destination.balance()
            },
            old(self).source.balance() < old(self).amount ==> {
                &&& *final(self).source == *old(self).source
                &&& *final(self).destination == *old(self).destination
            },
    {
        self.source.send_transfer(self.amount, self.destination);
    }
}

/// A transfer from an account to itself, should the account be debited and
/// then credited with the same amount, leaves its balance as it was and adds
/// two entries to its ledger: the debit, then the credit.
pub proof fn lemma_self_transfer(before: Account, debited: Account, after: Account, amount: i64)
    requires
        amount != i64::MIN,
        debited.is_debit_of(before, amount),
        after.is_credit_of(debited, amount),
    ensures
        after.ledger@ == before.ledger@.push((-amount) as i64).push(amount),
        after.ledger@.len() == before.ledger@.len() + 2,
        after.balance() == before.balance(),
{
    lemma_sum_push(before.ledger@, (-amount) as i64);
    lemma_sum_push(debited.ledger@, amount);
}

impl MoneySourceRoleRequirement for Account {
    open spec fn spec_available(&self) -> int {
        self.balance()
    }

    open spec fn is_debit_of(self, before: Account, amount: i64) -> bool {
        self.ledger@ == before.ledger@.push((-amount) as i64)
    }

    fn available_balance(&self) -> (r: i128) {
        self.current_balance()
    }

    fn decrease_balance(&mut self, amount: i64) {
        proof {
            lemma_sum_push(self.ledger@, (-amount) as i64);
        }
        self.ledger.push(-amount);
    }
}

impl MoneyDestinationRoleRequirement for Account {
    open spec fn spec_held(&self) -> int {
        self.balance()
    }

    open spec fn is_credit_of(self, before: Account, amount: i64) -> bool {
        self.ledger@ == before.ledger@.push(amount)
    }

    fn increase_balance(&mut self, amount: i64) {
        proof {
            lemma_sum_push(self.ledger@, amount);
        }
        self.ledger.push(amount);
    }
}

} // verus!
