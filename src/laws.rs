//! Properties of the ledger that hold for every state and every event.
use crate::account::{Account, Status, Transaction};
use crate::amount::Amount;
use crate::error::Error;
use crate::ledger::{lemma_steps_keep_wf, LedgerView};
use crate::processor::{event_step, Record};
use vstd::prelude::*;

verus! {

/// The total of the account is its available plus its held balance, and neither of
/// those is negative.
pub open spec fn balanced(a: Account) -> bool {
    &&& a.spec_total() == a.spec_available() + a.spec_held()
    &&& a.spec_available() >= 0
    &&& a.spec_held() >= 0
}

/// Every event, applied to a well-formed ledger, leaves a well-formed ledger in which
/// every account is balanced.
pub proof fn law_events_keep_accounts_balanced(s: LedgerView, record: Record)
    requires
        s.wf(),
    ensures
        event_step(s, record).1.wf(),
        forall|c: u16| #[trigger]
            event_step(s, record).1.accounts.contains_key(c) ==> balanced(
                event_step(s, record).1.accounts[c],
            ),
{
    let amount = match record.amount {
        Some(a) => a,
        None => Amount { units: 0 },
    };
    lemma_steps_keep_wf(s, record.client, amount, record.tx);
}

/// A deposit or withdrawal whose transaction id is already recorded fails with
/// `TxExists` and leaves every account and every transaction as it was.
pub proof fn law_reused_id_is_refused(s: LedgerView, client: u16, amount: Amount, tx: u32)
    requires
        s.txs.contains_key(tx),
        amount.value() >= 0,
    ensures
        s.deposit_step(client, amount, tx) == (Err::<(), Error>(Error::TxExists), s),
        s.withdraw_step(client, amount, tx) == (Err::<(), Error>(Error::TxExists), s),
{
}

/// A dispute, resolve or chargeback of an unknown transaction id succeeds and changes
/// nothing.
pub proof fn law_unknown_id_is_ignored(s: LedgerView, client: u16, tx: u32)
    requires
        !s.txs.contains_key(tx),
    ensures
        s.dispute_step(client, tx) == (Ok::<(), Error>(()), s),
        s.resolve_step(client, tx) == (Ok::<(), Error>(()), s),
        s.chargeback_step(client, tx) == (Ok::<(), Error>(()), s),
{
}

/// A dispute acts only on an open transaction, a resolve or a chargeback only on a
/// pending one. On any other status the event succeeds and leaves every balance and every
/// transaction as it was; at most an empty account is opened for the client.
pub proof fn law_lifecycle_guards(s: LedgerView, client: u16, tx: u32)
    requires
        s.txs.contains_key(tx),
    ensures
        s.txs[tx].status != Status::Open ==> s.dispute_step(client, tx) == (
            Ok::<(), Error>(()),
            s.touch(client),
        ),
        s.txs[tx].status != Status::Pending ==> s.resolve_step(client, tx) == (
            Ok::<(), Error>(()),
            s.touch(client),
        ),
        s.txs[tx].status != Status::Pending ==> s.chargeback_step(client, tx) == (
            Ok::<(), Error>(()),
            s.touch(client),
        ),
        s.touch(client).txs == s.txs,
        s.accounts.contains_key(client) ==> s.touch(client).accounts == s.accounts,
        !s.accounts.contains_key(client) ==> s.touch(client).accounts == s.accounts.insert(
            client,
            Account::fresh(client),
        ),
{
    if s.accounts.contains_key(client) {
        assert(s.accounts.insert(client, s.accounts[client]) =~= s.accounts);
    }
}

/// A frozen account absorbs deposits, withdrawals and disputes: they succeed and change
/// nothing.
pub proof fn law_frozen_account_absorbs(s: LedgerView, client: u16, amount: Amount, tx: u32)
    requires
        s.accounts.contains_key(client),
        s.accounts[client].spec_frozen(),
        amount.value() >= 0,
    ensures
        !s.txs.contains_key(tx) ==> s.deposit_step(client, amount, tx) == (
            Ok::<(), Error>(()),
            s,
        ),
        !s.txs.contains_key(tx) ==> s.withdraw_step(client, amount, tx) == (
            Ok::<(), Error>(()),
            s,
        ),
        s.dispute_step(client, tx) == (Ok::<(), Error>(()), s),
{
    assert(s.accounts.insert(client, s.accounts[client]) =~= s.accounts);
}

/// Once frozen, an account never changes again, whatever event comes.
pub proof fn law_frozen_account_is_final(s: LedgerView, record: Record, client: u16)
    requires
        s.accounts.contains_key(client),
        s.accounts[client].spec_frozen(),
    ensures
        event_step(s, record).1.accounts.contains_key(client),
        event_step(s, record).1.accounts[client] == s.accounts[client],
{
}

/// No event removes an account.
pub proof fn law_accounts_are_never_removed(s: LedgerView, record: Record, client: u16)
    requires
        s.accounts.contains_key(client),
    ensures
        event_step(s, record).1.accounts.contains_key(client),
{
}

/// Disputes, resolves and chargebacks never create a transaction: they only change the
/// status of one that a deposit or withdrawal recorded.
pub proof fn law_references_create_no_transaction(s: LedgerView, client: u16, tx: u32)
    ensures
        s.dispute_step(client, tx).1.txs.dom() == s.txs.dom(),
        s.resolve_step(client, tx).1.txs.dom() == s.txs.dom(),
        s.chargeback_step(client, tx).1.txs.dom() == s.txs.dom(),
{
    if s.txs.contains_key(tx) {
        let t = s.txs[tx];
        assert(s.txs.insert(tx, Transaction { status: Status::Pending, ..t }).dom() =~= s.txs.dom());
        assert(s.txs.insert(tx, Transaction { status: Status::Resolved, ..t }).dom() =~= s.txs.dom());
        assert(s.txs.insert(tx, Transaction { status: Status::Chargeback, ..t }).dom()
            =~= s.txs.dom());
    }
}

/// A chargeback that takes effect freezes the account.
pub proof fn law_chargeback_freezes(s: LedgerView, client: u16, tx: u32)
    requires
        s.txs.contains_key(tx),
        s.txs[tx].status == Status::Pending,
        !s.fetch(client).spec_frozen(),
        s.fetch(client).chargeback_spec(s.txs[tx].amount) is Ok,
    ensures
        s.chargeback_step(client, tx).0 is Ok,
        s.chargeback_step(client, tx).1.accounts[client].spec_frozen(),
        s.chargeback_step(client, tx).1.txs[tx].status == Status::Chargeback,
{
}

} // verus!
