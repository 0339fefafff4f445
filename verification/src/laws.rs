//! What holds of the ledger whatever the transactions are.

use vstd::prelude::*;
use vstd::arithmetic::power::pow;
use crate::amount::AmountView;
use crate::decimal::{decimal_difference, sum};
use crate::job_queue::{
    account_of, accounts_below, chargeback_step, deposit_step, dispute_step, keyed_by_client,
    resolve_step, transfer_step, withdrawal_step, zero_balance, AccountView,
};
use crate::error::CliError;
use crate::types::{ClientId, RecordView, Transaction, TransactionType};

verus! {

/// An account that no dispute has touched: nothing is held, and `total` is
/// the same number as `available`.
pub open spec fn settled(account: AccountView) -> bool {
    account.held == zero_balance() && account.total.same_value(account.available)
}

/// A deposit or a withdrawal, as the ledger sees it.
pub struct Transfer {
    pub tx_type: TransactionType,
    pub client: ClientId,
    pub amount: AmountView,
}

/// The accounts after a run of transfers, applied first to last.
pub open spec fn after_transfers(
    accounts: Map<ClientId, AccountView>,
    transfers: Seq<Transfer>,
) -> Map<ClientId, AccountView>
    decreases transfers.len(),
{
    if transfers.len() == 0 {
        accounts
    } else {
        let last = transfers.last();
        transfer_step(
            after_transfers(accounts, transfers.drop_last()),
            last.tx_type,
            last.client,
            last.amount,
        ).accounts
    }
}

/// Adding the zero balance to an amount gives the same number.
pub proof fn lemma_sum_with_zero_balance(a: AmountView)
    ensures
        sum(a, zero_balance()) matches Some(t) && t.same_value(a),
{
    if a.is_zero() {
        let t = zero_balance();
        assert(t.signed() * pow(10, a.scale) == 0) by (nonlinear_arith)
            requires
                t.signed() == 0,
        ;
        assert(a.signed() * pow(10, t.scale) == 0) by (nonlinear_arith)
            requires
                a.signed() == 0,
        ;
    }
}

/// A deposit leaves a settled account settled.
pub proof fn lemma_deposit_keeps_settled(account: AccountView, amount: AmountView)
    requires
        settled(account),
    ensures
        settled(account.deposit(amount)),
{
    lemma_sum_with_zero_balance(sum(account.available, amount).unwrap());
}

/// A withdrawal leaves a settled account settled.
pub proof fn lemma_withdrawal_keeps_settled(account: AccountView, amount: AmountView)
    requires
        settled(account),
    ensures
        settled(account.withdraw(amount)),
{
    lemma_sum_with_zero_balance(decimal_difference(account.available, amount).unwrap());
}

/// One transfer leaves every settled account settled, and the account it
/// opens is settled too.
pub proof fn lemma_transfer_keeps_accounts_settled(
    accounts: Map<ClientId, AccountView>,
    transfer: Transfer,
)
    requires
        transfer.tx_type.is_transfer(),
        forall|c: ClientId| #[trigger] accounts.contains_key(c) ==> settled(accounts[c]),
    ensures
        ({
            let after = transfer_step(
                accounts,
                transfer.tx_type,
                transfer.client,
                transfer.amount,
            ).accounts;
            forall|c: ClientId| #[trigger] after.contains_key(c) ==> settled(after[c])
        }),
{
    let account = account_of(accounts, transfer.client);
    assert(settled(account));
    lemma_deposit_keeps_settled(account, transfer.amount);
    lemma_withdrawal_keeps_settled(account, transfer.amount);
}

/// Starting from a ledger without accounts, after any run of deposits and
/// withdrawals every account holds nothing and has `total` equal to
/// `available`.
pub proof fn lemma_transfers_leave_accounts_settled(transfers: Seq<Transfer>)
    requires
        forall|i: int| 0 <= i < transfers.len() ==> (#[trigger] transfers[i]).tx_type.is_transfer(),
    ensures
        ({
            let after = after_transfers(Map::empty(), transfers);
            forall|c: ClientId| #[trigger] after.contains_key(c) ==> settled(after[c])
        }),
    decreases transfers.len(),
{
    if transfers.len() > 0 {
        lemma_transfers_leave_accounts_settled(transfers.drop_last());
        lemma_transfer_keeps_accounts_settled(
            after_transfers(Map::empty(), transfers.drop_last()),
            transfers.last(),
        );
    }
}

/// What the outcome log holds under a transaction id after a step: the
/// record that the step wrote, or what was there.
pub open spec fn logged(before: RecordView, written: Option<RecordView>) -> RecordView {
    match written {
        Some(record) => record,
        None => before,
    }
}

/// The same dispute submitted a second time, right after the first, does
/// nothing: the accounts stay as the first left them and nothing is written.
pub proof fn lemma_second_dispute_is_ignored(
    accounts: Map<ClientId, AccountView>,
    client: ClientId,
    record: RecordView,
)
    ensures
        ({
            let first = dispute_step(accounts, client, record);
            let second = dispute_step(first.accounts, client, logged(record, first.record));
            second.accounts == first.accounts && second.record is None
        }),
{
}

/// The same resolve submitted a second time, right after the first, does
/// nothing.
pub proof fn lemma_second_resolve_is_ignored(
    accounts: Map<ClientId, AccountView>,
    client: ClientId,
    record: RecordView,
)
    ensures
        ({
            let first = resolve_step(accounts, client, record);
            let second = resolve_step(first.accounts, client, logged(record, first.record));
            second.accounts == first.accounts && second.record is None
        }),
{
}

/// A locked account refuses every withdrawal, whatever it holds: the
/// accounts stay as they are and the record says that the transfer failed.
pub proof fn lemma_locked_account_refuses_withdrawal(
    accounts: Map<ClientId, AccountView>,
    client: ClientId,
    amount: AmountView,
)
    requires
        account_of(accounts, client).locked,
    ensures
        withdrawal_step(accounts, client, amount).accounts == accounts,
        withdrawal_step(accounts, client, amount).record matches Some(record) && !record.succeeded,
{
    assert(withdrawal_step(accounts, client, amount).accounts =~= accounts);
}

/// A locked account is left alone by a deposit too, and the record says
/// that the transfer failed.
pub proof fn lemma_locked_account_refuses_deposit(
    accounts: Map<ClientId, AccountView>,
    client: ClientId,
    amount: AmountView,
)
    requires
        account_of(accounts, client).locked,
    ensures
        deposit_step(accounts, client, amount).accounts == accounts,
        deposit_step(accounts, client, amount).record matches Some(record) && !record.succeeded,
{
    assert(deposit_step(accounts, client, amount).accounts =~= accounts);
}

/// Whether every account that is locked in `before` is locked in `after`.
pub open spec fn locks_kept(
    before: Map<ClientId, AccountView>,
    after: Map<ClientId, AccountView>,
) -> bool {
    forall|c: ClientId| #[trigger]
        before.contains_key(c) && before[c].locked ==> after.contains_key(c) && after[c].locked
}

/// No step unlocks an account.
pub proof fn lemma_lock_is_final(
    accounts: Map<ClientId, AccountView>,
    client: ClientId,
    amount: AmountView,
    record: RecordView,
)
    ensures
        locks_kept(accounts, deposit_step(accounts, client, amount).accounts),
        locks_kept(accounts, withdrawal_step(accounts, client, amount).accounts),
        locks_kept(accounts, dispute_step(accounts, client, record).accounts),
        locks_kept(accounts, resolve_step(accounts, client, record).accounts),
        locks_kept(accounts, chargeback_step(accounts, client, record).accounts),
{
}

/// A chargeback asks for no open dispute: on the record of a transfer of
/// the same client that succeeded, disputed or not, it takes the amount out
/// of `held` and locks the account.
pub proof fn lemma_chargeback_needs_no_dispute(
    accounts: Map<ClientId, AccountView>,
    client: ClientId,
    record: RecordView,
)
    requires
        record.client == client,
        record.succeeded,
    ensures
        ({
            let after = chargeback_step(accounts, client, record).accounts;
            &&& after.contains_key(client)
            &&& after[client] == account_of(accounts, client).chargeback(record.amount)
            &&& after[client].locked
        }),
{
}

/// A dispute, resolve or chargeback that carries an amount breaks a
/// structural rule, whatever else it holds.
pub proof fn lemma_amount_on_reference_is_refused(tx: Transaction)
    requires
        !tx.tx_type.is_transfer(),
        tx.amount is Some,
    ensures
        tx.defect() == Some(CliError::SomeDispute),
{
}

/// Every operation that changes an account leaves `total` as the sum of the
/// two other balances as they are afterwards: `available + held` after a
/// transfer, `held + available` after the others.
pub proof fn lemma_total_is_recomputed(account: AccountView, amount: AmountView)
    ensures
        !account.locked ==> ({
            let after = account.deposit(amount);
            after.total == sum(after.available, after.held).unwrap()
        }),
        account.withdraw_applies(amount) ==> ({
            let after = account.withdraw(amount);
            after.total == sum(after.available, after.held).unwrap()
        }),
        ({
            let after = account.dispute(amount);
            after.total == sum(after.held, after.available).unwrap()
        }),
        ({
            let after = account.resolve(amount);
            after.total == sum(after.held, after.available).unwrap()
        }),
        ({
            let after = account.chargeback(amount);
            after.total == sum(after.held, after.available).unwrap()
        }),
{
}

/// Every step keeps each account under its own client id.
pub proof fn lemma_steps_keep_accounts_keyed(
    accounts: Map<ClientId, AccountView>,
    client: ClientId,
    amount: AmountView,
    record: RecordView,
)
    requires
        keyed_by_client(accounts),
    ensures
        keyed_by_client(deposit_step(accounts, client, amount).accounts),
        keyed_by_client(withdrawal_step(accounts, client, amount).accounts),
        keyed_by_client(dispute_step(accounts, client, record).accounts),
        keyed_by_client(resolve_step(accounts, client, record).accounts),
        keyed_by_client(chargeback_step(accounts, client, record).accounts),
{
}

/// Whether `account` is kept in `accounts` under a client id below `bound`.
pub open spec fn kept_below(
    accounts: Map<ClientId, AccountView>,
    bound: nat,
    account: AccountView,
) -> bool {
    exists|c: ClientId| c < bound && #[trigger] accounts.contains_key(c) && accounts[c] == account
}

/// The list that ends a run holds the account of every client, and nothing
/// else.
pub proof fn lemma_accounts_below_is_complete(accounts: Map<ClientId, AccountView>, bound: nat)
    requires
        bound <= 0x1_0000,
    ensures
        forall|c: ClientId|
            c < bound && #[trigger] accounts.contains_key(c) ==> accounts_below(
                accounts,
                bound,
            ).contains(accounts[c]),
        forall|i: int|
            0 <= i < accounts_below(accounts, bound).len() ==> kept_below(
                accounts,
                bound,
                #[trigger] accounts_below(accounts, bound)[i],
            ),
    decreases bound,
{
    if bound > 0 {
        let last = (bound - 1) as ClientId;
        let before = accounts_below(accounts, (bound - 1) as nat);
        let list = accounts_below(accounts, bound);
        lemma_accounts_below_is_complete(accounts, (bound - 1) as nat);
        assert forall|c: ClientId| c < bound && #[trigger] accounts.contains_key(c) implies list.contains(
            accounts[c],
        ) by {
            if c == last {
                assert(list[list.len() - 1] == accounts[c]);
            } else {
                assert(before.contains(accounts[c]));
                let i = choose|i: int| 0 <= i < before.len() && before[i] == accounts[c];
                assert(list[i] == accounts[c]);
            }
        }
        assert forall|i: int| 0 <= i < list.len() implies kept_below(
            accounts,
            bound,
            #[trigger] list[i],
        ) by {
            if i < before.len() {
                assert(kept_below(accounts, (bound - 1) as nat, before[i]));
                let c = choose|c: ClientId|
                    c < bound - 1 && #[trigger] accounts.contains_key(c) && accounts[c]
                        == before[i];
                assert(accounts.contains_key(c) && list[i] == accounts[c]);
            } else {
                assert(accounts.contains_key(last) && list[i] == accounts[last]);
            }
        }
    }
}

/// Where every account is kept under its own client id, the list that ends
/// a run is in the strict order of the client ids: no client comes twice.
pub proof fn lemma_accounts_below_is_ordered(accounts: Map<ClientId, AccountView>, bound: nat)
    requires
        bound <= 0x1_0000,
        keyed_by_client(accounts),
    ensures
        forall|i: int|
            0 <= i < accounts_below(accounts, bound).len() ==> (#[trigger] accounts_below(
                accounts,
                bound,
            )[i]).client < bound,
        forall|i: int, j: int|
            0 <= i < j < accounts_below(accounts, bound).len() ==> (#[trigger] accounts_below(
                accounts,
                bound,
            )[i]).client < (#[trigger] accounts_below(accounts, bound)[j]).client,
    decreases bound,
{
    if bound > 0 {
        lemma_accounts_below_is_ordered(accounts, (bound - 1) as nat);
        let last = (bound - 1) as ClientId;
        let before = accounts_below(accounts, (bound - 1) as nat);
        let list = accounts_below(accounts, bound);
        assert(accounts.contains_key(last) ==> accounts[last].client == last);
        assert forall|i: int| 0 <= i < list.len() implies (#[trigger] list[i]).client < bound by {
            if i < before.len() {
                assert(before[i].client < bound - 1);
            }
        }
        assert forall|i: int, j: int| 0 <= i < j < list.len() implies (#[trigger] list[i]).client
            < (#[trigger] list[j]).client by {
            assert(before[i].client < bound - 1);
            if j < before.len() {
                assert(before[i].client < before[j].client);
            }
        }
    }
}

} // verus!
