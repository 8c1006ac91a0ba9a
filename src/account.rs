use crate::amount::{add_spec, sub_spec, Amount, MAX_UNITS};
use crate::error::Error;
use vstd::prelude::*;

verus! {

/// The balances of one client.
#[derive(Debug, Clone, Copy, PartialEq, Eq, Structural)]
pub struct Account {
    pub(crate) client: u16,
    pub(crate) available: Amount,
    pub(crate) held: Amount,
    pub(crate) total: Amount,
    pub(crate) locked: bool,
}

/// Whether an operation on `before` that was to give `res` returned `r` and left `after`:
/// on success the new balances, on failure the error and the balances unchanged.
pub open(crate) spec fn applied(
    before: Account,
    res: Result<Account, Error>,
    r: Result<(), Error>,
    after: Account,
) -> bool {
    match res {
        Ok(a) => r == Ok::<(), Error>(()) && after == a,
        Err(e) => r == Err::<(), Error>(e) && after == before,
    }
}

impl Account {
    /// The client the account belongs to.
    pub open(crate) spec fn spec_client(self) -> u16 {
        self.client
    }

    /// The available balance, in ten-thousandths.
    pub open(crate) spec fn spec_available(self) -> int {
        self.available.value()
    }

    /// The held balance, in ten-thousandths.
    pub open(crate) spec fn spec_held(self) -> int {
        self.held.value()
    }

    /// The total balance, in ten-thousandths.
    pub open(crate) spec fn spec_total(self) -> int {
        self.total.value()
    }

    /// Whether the account is frozen.
    pub open(crate) spec fn spec_frozen(self) -> bool {
        self.locked
    }

    /// The account a client starts with: all balances zero, not frozen.
    pub open(crate) spec fn fresh(client: u16) -> Account {
        Account {
            client,
            available: Amount { units: 0 },
            held: Amount { units: 0 },
            total: Amount { units: 0 },
            locked: false,
        }
    }

    /// The balance invariant: the total is the sum of the other two balances, neither of
    /// which is negative, and the total fits a decimal.
    pub open(crate) spec fn wf(self) -> bool {
        &&& self.total.value() == self.available.value() + self.held.value()
        &&& self.available.value() >= 0
        &&& self.held.value() >= 0
        &&& self.total.value() <= MAX_UNITS
    }

    /// Credits `amount` to the available and total balances.
    pub open(crate) spec fn deposit_spec(self, amount: Amount) -> Result<Account, Error> {
        match (add_spec(self.available, amount), add_spec(self.total, amount)) {
            (Some(available), Some(total)) => Ok(Account { available, total, ..self }),
            _ => Err(Error::Overflow),
        }
    }

    /// Credits `amount` to the held and total balances.
    pub open(crate) spec fn hold_spec(self, amount: Amount) -> Result<Account, Error> {
        match (add_spec(self.held, amount), add_spec(self.total, amount)) {
            (Some(held), Some(total)) => Ok(Account { held, total, ..self }),
            _ => Err(Error::Overflow),
        }
    }

    /// Debits `amount` from the available and total balances, unless the available
    /// balance would go below zero.
    pub open(crate) spec fn withdraw_spec(self, amount: Amount) -> Result<Account, Error> {
        match sub_spec(self.available, amount) {
            None => Err(Error::Overflow),
            Some(available) => if available.value() < 0 {
                Err(Error::InsufficientFunds)
            } else {
                match sub_spec(self.total, amount) {
                    None => Err(Error::Overflow),
                    Some(total) => Ok(Account { available, total, ..self }),
                }
            },
        }
    }

    /// Debits `amount` from the held and total balances, unless the held balance would
    /// go below zero.
    pub open(crate) spec fn withdraw_held_spec(self, amount: Amount) -> Result<Account, Error> {
        match sub_spec(self.held, amount) {
            None => Err(Error::Overflow),
            Some(held) => if held.value() < 0 {
                Err(Error::InsufficientFunds)
            } else {
                match sub_spec(self.total, amount) {
                    None => Err(Error::Overflow),
                    Some(total) => Ok(Account { held, total, ..self }),
                }
            },
        }
    }

    /// Moves `amount` from available to held.
    pub open(crate) spec fn dispute_spec(self, amount: Amount) -> Result<Account, Error> {
        match self.withdraw_spec(amount) {
            Ok(a) => a.hold_spec(amount),
            Err(e) => Err(e),
        }
    }

    /// Moves `amount` from held back to available.
    pub open(crate) spec fn resolve_spec(self, amount: Amount) -> Result<Account, Error> {
        match self.withdraw_held_spec(amount) {
            Ok(a) => a.deposit_spec(amount),
            Err(e) => Err(e),
        }
    }

    /// Removes `amount` from held and total, and freezes the account.
    pub open(crate) spec fn chargeback_spec(self, amount: Amount) -> Result<Account, Error> {
        match self.withdraw_held_spec(amount) {
            Ok(a) => Ok(Account { locked: true, ..a }),
            Err(e) => Err(e),
        }
    }

    /// A new account for `id` with zero balances.
    pub fn new(id: u16) -> (r: Account)
        ensures
            r == Account::fresh(id),
    {
        Account {
            client: id,
            available: Amount::zero(),
            held: Amount::zero(),
            total: Amount::zero(),
            locked: false,
        }
    }

    /// Credits `amount` to the available and total balances; on overflow nothing changes.
    pub(crate) fn deposit(&mut self, amount: Amount) -> (r: Result<(), Error>)
        ensures
            applied(*old(self), old(self).deposit_spec(amount), r, *final(self)),
    {
        let available = match self.available.checked_add(amount) {
            Some(v) => v,
            None => return Err(Error::Overflow),
        };
        let total = match self.total.checked_add(amount) {
            Some(v) => v,
            None => return Err(Error::Overflow),
        };
        self.available = available;
        self.total = total;
        Ok(())
    }

    /// Credits `amount` to the held and total balances; on overflow nothing changes.
    pub(crate) fn hold(&mut self, amount: Amount) -> (r: Result<(), Error>)
        ensures
            applied(*old(self), old(self).hold_spec(amount), r, *final(self)),
    {
        let held = match self.held.checked_add(amount) {
            Some(v) => v,
            None => return Err(Error::Overflow),
        };
        let total = match self.total.checked_add(amount) {
            Some(v) => v,
            None => return Err(Error::Overflow),
        };
        self.held = held;
        self.total = total;
        Ok(())
    }

    /// Debits `amount` from the available and total balances; nothing changes when that
    /// would leave the available balance negative or overflow.
    pub(crate) fn withdraw(&mut self, amount: Amount) -> (r: Result<(), Error>)
        ensures
            applied(*old(self), old(self).withdraw_spec(amount), r, *final(self)),
    {
        let available = match self.available.checked_sub(amount) {
            Some(v) => v,
            None => return Err(Error::Overflow),
        };
        if available.is_negative() {
            return Err(Error::InsufficientFunds);
        }
        let total = match self.total.checked_sub(amount) {
            Some(v) => v,
            None => return Err(Error::Overflow),
        };
        self.available = available;
        self.total = total;
        Ok(())
    }

    /// Debits `amount` from the held and total balances; nothing changes when that would
    /// leave the held balance negative or overflow.
    pub(crate) fn withdraw_held(&mut self, amount: Amount) -> (r: Result<(), Error>)
        ensures
            applied(*old(self), old(self).withdraw_held_spec(amount), r, *final(self)),
    {
        let held = match self.held.checked_sub(amount) {
            Some(v) => v,
            None => return Err(Error::Overflow),
        };
        if held.is_negative() {
            return Err(Error::InsufficientFunds);
        }
        let total = match self.total.checked_sub(amount) {
            Some(v) => v,
            None => return Err(Error::Overflow),
        };
        self.held = held;
        self.total = total;
        Ok(())
    }

    /// Moves `amount` from available to held, all or nothing.
    pub(crate) fn dispute(&mut self, amount: Amount) -> (r: Result<(), Error>)
        ensures
            applied(*old(self), old(self).dispute_spec(amount), r, *final(self)),
    {
        let mut next = *self;
        if let Err(e) = next.withdraw(amount) {
            return Err(e);
        }
        if let Err(e) = next.hold(amount) {
            return Err(e);
        }
        *self = next;
        Ok(())
    }

    /// Moves `amount` from held back to available, all or nothing.
    pub(crate) fn resolve(&mut self, amount: Amount) -> (r: Result<(), Error>)
        ensures
            applied(*old(self), old(self).resolve_spec(amount), r, *final(self)),
    {
        let mut next = *self;
        if let Err(e) = next.withdraw_held(amount) {
            return Err(e);
        }
        if let Err(e) = next.deposit(amount) {
            return Err(e);
        }
        *self = next;
        Ok(())
    }

    /// Removes `amount` from held and total and freezes the account, all or nothing.
    pub(crate) fn chargeback(&mut self, amount: Amount) -> (r: Result<(), Error>)
        ensures
            applied(*old(self), old(self).chargeback_spec(amount), r, *final(self)),
    {
        if let Err(e) = self.withdraw_held(amount) {
            return Err(e);
        }
        self.locked = true;
        Ok(())
    }

    /// The client the account belongs to.
    pub fn client(&self) -> (r: u16)
        ensures
            r == self.spec_client(),
    {
        self.client
    }

    /// Funds the client can use.
    pub fn available(&self) -> (r: Amount)
        ensures
            r.value() == self.spec_available(),
    {
        self.available
    }

    /// Funds held by open disputes.
    pub fn held(&self) -> (r: Amount)
        ensures
            r.value() == self.spec_held(),
    {
        self.held
    }

    /// Available and held funds together.
    pub fn total(&self) -> (r: Amount)
        ensures
            r.value() == self.spec_total(),
    {
        self.total
    }

    /// Whether a chargeback has frozen the account.
    pub fn frozen(&self) -> (r: bool)
        ensures
            r == self.spec_frozen(),
    {
        self.locked
    }
}

/// Each balance operation, applied with a non-negative amount to a balanced account,
/// gives a balanced account of the same client.
pub proof fn lemma_operations_keep_balance(a: Account, amount: Amount)
    requires
        a.wf(),
        amount.value() >= 0,
    ensures
        a.deposit_spec(amount) matches Ok(b) ==> b.wf() && b.spec_client() == a.spec_client(),
        a.withdraw_spec(amount) matches Ok(b) ==> b.wf() && b.spec_client() == a.spec_client(),
        a.dispute_spec(amount) matches Ok(b) ==> b.wf() && b.spec_client() == a.spec_client(),
        a.resolve_spec(amount) matches Ok(b) ==> b.wf() && b.spec_client() == a.spec_client(),
        a.chargeback_spec(amount) matches Ok(b) ==> b.wf() && b.spec_client() == a.spec_client(),
{
}

/// Where a deposit or withdrawal stands in the dispute lifecycle.
#[derive(Debug, Clone, Copy, PartialEq, Eq, Structural)]
pub enum Status {
    Open,
    Pending,
    Resolved,
    Chargeback,
}

/// A deposit or withdrawal that later events may dispute.
#[derive(Debug, Clone, Copy, PartialEq, Eq, Structural)]
pub struct Transaction {
    pub id: u32,
    pub amount: Amount,
    pub status: Status,
}

impl Transaction {
    /// A newly recorded transaction, open to disputes.
    pub fn new(id: u32, amount: Amount) -> (r: Transaction)
        ensures
            r == (Transaction { id, amount, status: Status::Open }),
    {
        Transaction { id, amount, status: Status::Open }
    }
}

} // verus!
