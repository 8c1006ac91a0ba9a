use crate::account::{lemma_operations_keep_balance, Account, Status, Transaction};
use crate::amount::Amount;
use crate::error::Error;
use std::collections::HashMap;
use vstd::prelude::*;

verus! {

/// The state of a ledger: the account of each client and the transaction of each id.
pub struct LedgerView {
    pub accounts: Map<u16, Account>,
    pub txs: Map<u32, Transaction>,
}

impl LedgerView {
    /// The account of `client`, or the one it would start with.
    pub open spec fn fetch(self, client: u16) -> Account {
        if self.accounts.contains_key(client) {
            self.accounts[client]
        } else {
            Account::fresh(client)
        }
    }

    /// The same state, with an account for `client` created if it had none.
    pub open spec fn touch(self, client: u16) -> LedgerView {
        LedgerView { accounts: self.accounts.insert(client, self.fetch(client)), txs: self.txs }
    }

    /// Every account is balanced and filed under its own client; every transaction is
    /// filed under its own id and has a non-negative amount.
    pub open spec fn wf(self) -> bool {
        &&& forall|c: u16| #[trigger]
            self.accounts.contains_key(c) ==> self.accounts[c].wf() && self.accounts[c].spec_client()
                == c
        &&& forall|t: u32| #[trigger]
            self.txs.contains_key(t) ==> self.txs[t].id == t && self.txs[t].amount.value() >= 0
    }

    /// A deposit (`credit`) or a withdrawal of `amount` under the new id `tx`, whose effect
    /// on the client's account is `res`.
    pub open spec fn transfer_step(
        self,
        client: u16,
        amount: Amount,
        tx: u32,
        res: Result<Account, Error>,
    ) -> (Result<(), Error>, LedgerView) {
        if amount.value() < 0 {
            (Err(Error::InvalidData), self)
        } else if self.txs.contains_key(tx) {
            (Err(Error::TxExists), self)
        } else if self.fetch(client).spec_frozen() {
            (Ok(()), self.touch(client))
        } else {
            match res {
                Ok(a) => (
                    Ok(()),
                    LedgerView {
                        accounts: self.accounts.insert(client, a),
                        txs: self.txs.insert(tx, Transaction { id: tx, amount, status: Status::Open }),
                    },
                ),
                Err(e) => (Err(e), self.touch(client)),
            }
        }
    }

    /// The effect of a deposit event.
    pub open spec fn deposit_step(self, client: u16, amount: Amount, tx: u32) -> (
        Result<(), Error>,
        LedgerView,
    ) {
        self.transfer_step(client, amount, tx, self.fetch(client).deposit_spec(amount))
    }

    /// The effect of a withdrawal event.
    pub open spec fn withdraw_step(self, client: u16, amount: Amount, tx: u32) -> (
        Result<(), Error>,
        LedgerView,
    ) {
        self.transfer_step(client, amount, tx, self.fetch(client).withdraw_spec(amount))
    }

    /// An event that moves the known transaction `tx` from status `from` to `to`, whose
    /// effect on the client's account is `res`. A frozen account, another status, or a
    /// shortfall of funds leave the balances and the transaction as they were.
    pub open spec fn settle_step(
        self,
        client: u16,
        tx: u32,
        from: Status,
        to: Status,
        res: Result<Account, Error>,
    ) -> (Result<(), Error>, LedgerView) {
        let t = self.txs[tx];
        if self.fetch(client).spec_frozen() || t.status != from {
            (Ok(()), self.touch(client))
        } else {
            match res {
                Ok(a) => (
                    Ok(()),
                    LedgerView {
                        accounts: self.accounts.insert(client, a),
                        txs: self.txs.insert(tx, Transaction { status: to, ..t }),
                    },
                ),
                Err(Error::InsufficientFunds) => (Ok(()), self.touch(client)),
                Err(e) => (Err(e), self.touch(client)),
            }
        }
    }

    /// The effect of a dispute event.
    pub open spec fn dispute_step(self, client: u16, tx: u32) -> (Result<(), Error>, LedgerView) {
        if !self.txs.contains_key(tx) {
            (Ok(()), self)
        } else {
            self.settle_step(
                client,
                tx,
                Status::Open,
                Status::Pending,
                self.fetch(client).dispute_spec(self.txs[tx].amount),
            )
        }
    }

    /// The effect of a resolve event.
    pub open spec fn resolve_step(self, client: u16, tx: u32) -> (Result<(), Error>, LedgerView) {
        if !self.txs.contains_key(tx) {
            (Ok(()), self)
        } else {
            self.settle_step(
                client,
                tx,
                Status::Pending,
                Status::Resolved,
                self.fetch(client).resolve_spec(self.txs[tx].amount),
            )
        }
    }

    /// The effect of a chargeback event.
    pub open spec fn chargeback_step(self, client: u16, tx: u32) -> (
        Result<(), Error>,
        LedgerView,
    ) {
        if !self.txs.contains_key(tx) {
            (Ok(()), self)
        } else {
            self.settle_step(
                client,
                tx,
                Status::Pending,
                Status::Chargeback,
                self.fetch(client).chargeback_spec(self.txs[tx].amount),
            )
        }
    }
}

/// The accounts of the clients below `n`, in increasing order of client id.
pub open spec fn listed(accounts: Map<u16, Account>, n: nat) -> Seq<Account>
    decreases n,
{
    if n == 0 {
        Seq::empty()
    } else {
        let before = listed(accounts, (n - 1) as nat);
        let c = (n - 1) as u16;
        if accounts.contains_key(c) {
            before.push(accounts[c])
        } else {
            before
        }
    }
}

/// Every account listed from a well-formed ledger is balanced.
pub proof fn lemma_listed_balanced(s: LedgerView, n: nat)
    requires
        s.wf(),
        n <= 0x10000,
    ensures
        forall|i: int| 0 <= i < listed(s.accounts, n).len() ==> #[trigger] listed(s.accounts, n)[i].wf(),
    decreases n,
{
    if n > 0 {
        lemma_listed_balanced(s, (n - 1) as nat);
        let c = (n - 1) as u16;
        let before = listed(s.accounts, (n - 1) as nat);
        if s.accounts.contains_key(c) {
            assert(s.accounts[c].wf());
            assert forall|i: int| 0 <= i < listed(s.accounts, n).len() implies #[trigger] listed(
                s.accounts,
                n,
            )[i].wf() by {
                if i < before.len() {
                    assert(listed(s.accounts, n)[i] == before[i]);
                }
            }
        }
    }
}

/// Every event kind keeps a well-formed ledger well-formed.
pub proof fn lemma_steps_keep_wf(s: LedgerView, client: u16, amount: Amount, tx: u32)
    requires
        s.wf(),
    ensures
        s.deposit_step(client, amount, tx).1.wf(),
        s.withdraw_step(client, amount, tx).1.wf(),
        s.dispute_step(client, tx).1.wf(),
        s.resolve_step(client, tx).1.wf(),
        s.chargeback_step(client, tx).1.wf(),
{
    let a = s.fetch(client);
    if amount.value() >= 0 {
        lemma_operations_keep_balance(a, amount);
    }
    if s.txs.contains_key(tx) {
        lemma_operations_keep_balance(a, s.txs[tx].amount);
    }
}

/// All accounts and transactions of one run; the only place where they change.
#[derive(Debug)]
pub struct Accounts {
    inner: HashMap<u16, Account>,
    transactions: HashMap<u32, Transaction>,
}

impl View for Accounts {
    type V = LedgerView;

    closed spec fn view(&self) -> LedgerView {
        LedgerView { accounts: self.inner@, txs: self.transactions@ }
    }
}

impl Accounts {
    /// A ledger with no accounts and no transactions.
    pub fn new() -> (r: Accounts)
        ensures
            r@.accounts == Map::<u16, Account>::empty(),
            r@.txs == Map::<u32, Transaction>::empty(),
            r@.wf(),
    {
        Accounts { inner: HashMap::new(), transactions: HashMap::new() }
    }

    /// The account of `id`, created with zero balances if it had none.
    pub fn account(&mut self, id: u16) -> (r: Result<Account, Error>)
        requires
            old(self)@.wf(),
        ensures
            r == Ok::<Account, Error>(old(self)@.fetch(id)),
            final(self)@ == old(self)@.touch(id),
            final(self)@.wf(),
    {
        match self.inner.get(&id) {
            Some(a) => {
                let a = *a;
                proof {
                    assert(self@.accounts.insert(id, a) =~= self@.accounts);
                }
                Ok(a)
            },
            None => {
                let a = Account::new(id);
                self.inner.insert(id, a);
                proof {
                    assert forall|c: u16| #[trigger] self@.accounts.contains_key(c) implies self@.accounts[c].wf()
                        && self@.accounts[c].spec_client() == c by {
                        if c != id {
                            assert(old(self)@.accounts.contains_key(c));
                        }
                    }
                }
                Ok(a)
            },
        }
    }

    /// The transaction recorded under `id`, if any.
    fn transaction(&self, id: u32) -> (r: Option<Transaction>)
        ensures
            r == (if self@.txs.contains_key(id) {
                Some(self@.txs[id])
            } else {
                None
            }),
    {
        match self.transactions.get(&id) {
            Some(t) => Some(*t),
            None => None,
        }
    }

    fn update_account(&mut self, account: Account) -> (r: Result<(), Error>)
        ensures
            r is Ok,
            final(self)@ == (LedgerView {
                accounts: old(self)@.accounts.insert(account.spec_client(), account),
                txs: old(self)@.txs,
            }),
    {
        self.inner.insert(account.client(), account);
        Ok(())
    }

    fn update_transaction(&mut self, tx: Transaction) -> (r: Result<(), Error>)
        ensures
            r is Ok,
            final(self)@ == (LedgerView {
                accounts: old(self)@.accounts,
                txs: old(self)@.txs.insert(tx.id, tx),
            }),
    {
        self.transactions.insert(tx.id, tx);
        Ok(())
    }

    /// Credits `amount` to `client` under the new transaction id `tx`.
    pub fn deposit(&mut self, client: u16, amount: Amount, tx: u32) -> (r: Result<(), Error>)
        requires
            old(self)@.wf(),
        ensures
            (r, final(self)@) == old(self)@.deposit_step(client, amount, tx),
            final(self)@.wf(),
    {
        proof {
            lemma_steps_keep_wf(self@, client, amount, tx);
        }
        if amount.is_negative() {
            return Err(Error::InvalidData);
        }
        if self.transaction(tx).is_some() {
            return Err(Error::TxExists);
        }
        let ghost s0 = self@;
        let mut account = match self.account(client) {
            Ok(a) => a,
            Err(e) => return Err(e),
        };
        if account.frozen() {
            return Ok(());
        }
        if let Err(e) = account.deposit(amount) {
            return Err(e);
        }
        let _ = self.update_account(account);
        let _ = self.update_transaction(Transaction::new(tx, amount));
        proof {
            assert(self@.accounts =~= s0.accounts.insert(client, account));
        }
        Ok(())
    }

    /// Debits `amount` from `client` under the new transaction id `tx`.
    pub fn withdraw(&mut self, client: u16, amount: Amount, tx: u32) -> (r: Result<(), Error>)
        requires
            old(self)@.wf(),
        ensures
            (r, final(self)@) == old(self)@.withdraw_step(client, amount, tx),
            final(self)@.wf(),
    {
        proof {
            lemma_steps_keep_wf(self@, client, amount, tx);
        }
        if amount.is_negative() {
            return Err(Error::InvalidData);
        }
        if self.transaction(tx).is_some() {
            return Err(Error::TxExists);
        }
        let ghost s0 = self@;
        let mut account = match self.account(client) {
            Ok(a) => a,
            Err(e) => return Err(e),
        };
        if account.frozen() {
            return Ok(());
        }
        if let Err(e) = account.withdraw(amount) {
            return Err(e);
        }
        let _ = self.update_account(account);
        let _ = self.update_transaction(Transaction::new(tx, amount));
        proof {
            assert(self@.accounts =~= s0.accounts.insert(client, account));
        }
        Ok(())
    }

    /// Holds the funds of transaction `tx` while it is disputed.
    pub fn dispute(&mut self, client: u16, tx: u32) -> (r: Result<(), Error>)
        requires
            old(self)@.wf(),
        ensures
            (r, final(self)@) == old(self)@.dispute_step(client, tx),
            final(self)@.wf(),
    {
        proof {
            lemma_steps_keep_wf(self@, client, Amount { units: 0 }, tx);
        }
        let mut trans = match self.transaction(tx) {
            Some(t) => t,
            None => return Ok(()),
        };
        let ghost s0 = self@;
        let mut account = match self.account(client) {
            Ok(a) => a,
            Err(e) => return Err(e),
        };
        if account.frozen() || trans.status != Status::Open {
            return Ok(());
        }
        match account.dispute(trans.amount) {
            Ok(()) => {},
            Err(Error::InsufficientFunds) => return Ok(()),
            Err(e) => return Err(e),
        }
        trans.status = Status::Pending;
        let _ = self.update_transaction(trans);
        let _ = self.update_account(account);
        proof {
            assert(self@.accounts =~= s0.accounts.insert(client, account));
        }
        Ok(())
    }

    /// Releases the held funds of the disputed transaction `tx` back to the client.
    pub fn resolve(&mut self, client: u16, tx: u32) -> (r: Result<(), Error>)
        requires
            old(self)@.wf(),
        ensures
            (r, final(self)@) == old(self)@.resolve_step(client, tx),
            final(self)@.wf(),
    {
        proof {
            lemma_steps_keep_wf(self@, client, Amount { units: 0 }, tx);
        }
        let mut trans = match self.transaction(tx) {
            Some(t) => t,
            None => return Ok(()),
        };
        let ghost s0 = self@;
        let mut account = match self.account(client) {
            Ok(a) => a,
            Err(e) => return Err(e),
        };
        if account.frozen() || trans.status != Status::Pending {
            return Ok(());
        }
        match account.resolve(trans.amount) {
            Ok(()) => {},
            Err(Error::InsufficientFunds) => return Ok(()),
            Err(e) => return Err(e),
        }
        trans.status = Status::Resolved;
        let _ = self.update_transaction(trans);
        let _ = self.update_account(account);
        proof {
            assert(self@.accounts =~= s0.accounts.insert(client, account));
        }
        Ok(())
    }

    /// Removes the held funds of the disputed transaction `tx` and freezes the account.
    pub fn chargeback(&mut self, client: u16, tx: u32) -> (r: Result<(), Error>)
        requires
            old(self)@.wf(),
        ensures
            (r, final(self)@) == old(self)@.chargeback_step(client, tx),
            final(self)@.wf(),
    {
        proof {
            lemma_steps_keep_wf(self@, client, Amount { units: 0 }, tx);
        }
        let mut trans = match self.transaction(tx) {
            Some(t) => t,
            None => return Ok(()),
        };
        let ghost s0 = self@;
        let mut account = match self.account(client) {
            Ok(a) => a,
            Err(e) => return Err(e),
        };
        if account.frozen() || trans.status != Status::Pending {
            return Ok(());
        }
        match account.chargeback(trans.amount) {
            Ok(()) => {},
            Err(Error::InsufficientFunds) => return Ok(()),
            Err(e) => return Err(e),
        }
        trans.status = Status::Chargeback;
        let _ = self.update_transaction(trans);
        let _ = self.update_account(account);
        proof {
            assert(self@.accounts =~= s0.accounts.insert(client, account));
        }
        Ok(())
    }

    /// Every account, in increasing order of client id.
    pub fn accounts(&self) -> (r: Vec<Account>)
        ensures
            r@ == listed(self@.accounts, 0x10000),
            self@.wf() ==> forall|i: int| 0 <= i < r@.len() ==> #[trigger] r@[i].wf(),
    {
        let mut out: Vec<Account> = Vec::new();
        let mut i: u32 = 0;
        while i < 0x10000
            invariant
                i <= 0x10000,
                out@ == listed(self@.accounts, i as nat),
            decreases 0x10000 - i,
        {
            let c = i as u16;
            match self.inner.get(&c) {
                Some(a) => out.push(*a),
                None => {},
            }
            i = i + 1;
        }
        proof {
            if self@.wf() {
                lemma_listed_balanced(self@, 0x10000);
            }
        }
        out
    }
}

} // verus!
