//! Accounts and the engine that applies transactions to them.

use std::collections::HashMap;
use vstd::prelude::*;
use vstd::std_specs::hash::group_hash_axioms;
use crate::amount::{Amount, AmountView};
use crate::decimal::{
    checked_add, checked_mul, checked_sub, decimal_difference, decimal_product, greater_or_equal,
    sum,
};
use crate::codec::{bincode_decoding, bincode_encoding, decode, encode};
use crate::error::CliError;
use crate::types::{ClientId, RecordView, Transaction, TransactionRecord, TransactionType};

verus! {

/// The balances of one client, with the amounts seen as numbers.
pub struct AccountView {
    pub client: ClientId,
    pub available: AmountView,
    pub held: AmountView,
    pub total: AmountView,
    pub locked: bool,
}

/// `0.0`, the balance of a fresh account.
pub open spec fn zero_balance() -> AmountView {
    AmountView { negative: false, magnitude: 0, scale: 1 }
}

impl AccountView {
    /// The account of a client seen for the first time.
    pub open spec fn fresh(client: ClientId) -> AccountView {
        AccountView {
            client,
            available: zero_balance(),
            held: zero_balance(),
            total: zero_balance(),
            locked: false,
        }
    }

    /// Whether a deposit of `amount` stays within what a decimal can hold.
    pub open spec fn deposit_fits(self, amount: AmountView) -> bool {
        !self.locked ==> (sum(self.available, amount) matches Some(a) && sum(a, self.held) is Some)
    }

    /// The account after a deposit of `amount`: a locked account is left
    /// alone, any other gains `amount` in `available`, and `total` is
    /// recomputed as `available + held`.
    pub open spec fn deposit(self, amount: AmountView) -> AccountView {
        if self.locked {
            self
        } else {
            let available = sum(self.available, amount).unwrap();
            AccountView { available, total: sum(available, self.held).unwrap(), ..self }
        }
    }

    /// Whether a withdrawal of `amount` is carried out: the account is not
    /// locked and holds at least that much in `available`.
    pub open spec fn withdraw_applies(self, amount: AmountView) -> bool {
        self.available.at_least(amount) && !self.locked
    }

    /// Whether a withdrawal of `amount` stays within what a decimal can
    /// hold.
    pub open spec fn withdraw_fits(self, amount: AmountView) -> bool {
        self.withdraw_applies(amount) ==> (decimal_difference(self.available, amount) matches Some(
            a,
        ) && sum(a, self.held) is Some)
    }

    /// The account after a withdrawal of `amount`: unchanged unless the
    /// withdrawal applies; else `available` loses `amount` and `total` is
    /// recomputed as `available + held`.
    pub open spec fn withdraw(self, amount: AmountView) -> AccountView {
        if self.withdraw_applies(amount) {
            let available = decimal_difference(self.available, amount).unwrap();
            AccountView { available, total: sum(available, self.held).unwrap(), ..self }
        } else {
            self
        }
    }

    /// Whether holding `amount` more stays within what a decimal can hold.
    pub open spec fn dispute_fits(self, amount: AmountView) -> bool {
        sum(self.held, amount) matches Some(h) && sum(h, self.available) is Some
    }

    /// The account after `amount` is put on hold: `held` gains it, and
    /// `total` is recomputed as `held + available`. `available` stays.
    pub open spec fn dispute(self, amount: AmountView) -> AccountView {
        let held = sum(self.held, amount).unwrap();
        AccountView { held, total: sum(held, self.available).unwrap(), ..self }
    }

    /// Whether taking `amount` out of `held` stays within what a decimal can
    /// hold.
    pub open spec fn release_fits(self, amount: AmountView) -> bool {
        decimal_difference(self.held, amount) matches Some(h) && sum(h, self.available) is Some
    }

    /// The account after `amount` is released from hold: `held` loses it,
    /// and `total` is recomputed as `held + available`.
    pub open spec fn resolve(self, amount: AmountView) -> AccountView {
        let held = decimal_difference(self.held, amount).unwrap();
        AccountView { held, total: sum(held, self.available).unwrap(), ..self }
    }

    /// The account after a chargeback of `amount`: as after a release, and
    /// locked.
    pub open spec fn chargeback(self, amount: AmountView) -> AccountView {
        AccountView { locked: true, ..self.resolve(amount) }
    }
}

/// The balances of one client.
#[derive(Debug, Clone, Copy)]
pub struct Account {
    client: ClientId,
    available: Amount,
    held: Amount,
    total: Amount,
    locked: bool,
}

impl View for Account {
    type V = AccountView;

    closed spec fn view(&self) -> AccountView {
        AccountView {
            client: self.client,
            available: self.available@,
            held: self.held@,
            total: self.total@,
            locked: self.locked,
        }
    }
}

impl Account {
    /// An account with nothing in it.
    pub fn new(id: ClientId) -> (r: Self)
        ensures
            r@ == AccountView::fresh(id),
    {
        Self {
            client: id,
            available: Amount::zero(),
            held: Amount::zero(),
            total: Amount::zero(),
            locked: false,
        }
    }

    pub fn client(&self) -> (r: ClientId)
        ensures
            r == self@.client,
    {
        self.client
    }

    /// Funds that can be withdrawn now.
    pub fn available(&self) -> (r: Amount)
        ensures
            r@ == self@.available,
    {
        self.available
    }

    /// Funds frozen while a dispute is open.
    pub fn held(&self) -> (r: Amount)
        ensures
            r@ == self@.held,
    {
        self.held
    }

    /// The sum of the other two, as of the last change.
    pub fn total(&self) -> (r: Amount)
        ensures
            r@ == self@.total,
    {
        self.total
    }

    /// Whether a chargeback has closed the account to withdrawals.
    pub fn locked(&self) -> (r: bool)
        ensures
            r == self@.locked,
    {
        self.locked
    }

    /// Tells whether `deposit` can be called with `amount`.
    pub fn can_deposit(&self, amount: Amount) -> (r: bool)
        ensures
            r == self@.deposit_fits(amount@),
    {
        if self.locked {
            true
        } else {
            match checked_add(self.available, amount) {
                Some(a) => checked_add(a, self.held).is_some(),
                None => false,
            }
        }
    }

    /// Adds `amount` to `available` unless the account is locked, and says
    /// whether it did.
    pub fn deposit(&mut self, amount: Amount) -> (applied: bool)
        requires
            old(self)@.deposit_fits(amount@),
        ensures
            applied == !old(self)@.locked,
            final(self)@ == old(self)@.deposit(amount@),
    {
        if !self.locked {
            self.available = checked_add(self.available, amount).unwrap();
            self.total = checked_add(self.available, self.held).unwrap();
            true
        } else {
            false
        }
    }

    /// Tells whether `withdraw` can be called with `amount`.
    pub fn can_withdraw(&self, amount: Amount) -> (r: bool)
        ensures
            r == self@.withdraw_fits(amount@),
    {
        if greater_or_equal(self.available, amount) && !self.locked {
            match checked_sub(self.available, amount) {
                Some(a) => checked_add(a, self.held).is_some(),
                None => false,
            }
        } else {
            true
        }
    }

    /// Takes `amount` out of `available` if the account is not locked and
    /// holds that much, and says whether it did. A locked account and a
    /// short one fail alike.
    pub fn withdraw(&mut self, amount: Amount) -> (applied: bool)
        requires
            old(self)@.withdraw_fits(amount@),
        ensures
            applied == old(self)@.withdraw_applies(amount@),
            final(self)@ == old(self)@.withdraw(amount@),
    {
        if greater_or_equal(self.available, amount) && !self.locked {
            self.available = checked_sub(self.available, amount).unwrap();
            self.total = checked_add(self.available, self.held).unwrap();
            true
        } else {
            false
        }
    }

    /// Tells whether `dispute` can be called with `amount`.
    pub fn can_dispute(&self, amount: Amount) -> (r: bool)
        ensures
            r == self@.dispute_fits(amount@),
    {
        match checked_add(self.held, amount) {
            Some(h) => checked_add(h, self.available).is_some(),
            None => false,
        }
    }

    /// Puts `amount` on hold. `available` is not reduced.
    pub fn dispute(&mut self, amount: Amount)
        requires
            old(self)@.dispute_fits(amount@),
        ensures
            final(self)@ == old(self)@.dispute(amount@),
    {
        self.held = checked_add(self.held, amount).unwrap();
        self.total = checked_add(self.held, self.available).unwrap();
    }

    /// Tells whether `resolve` and `chargeback` can be called with
    /// `amount`.
    pub fn can_release(&self, amount: Amount) -> (r: bool)
        ensures
            r == self@.release_fits(amount@),
    {
        match checked_sub(self.held, amount) {
            Some(h) => checked_add(h, self.available).is_some(),
            None => false,
        }
    }

    /// Releases `amount` from hold.
    pub fn resolve(&mut self, amount: Amount)
        requires
            old(self)@.release_fits(amount@),
        ensures
            final(self)@ == old(self)@.resolve(amount@),
    {
        self.held = checked_sub(self.held, amount).unwrap();
        self.total = checked_add(self.held, self.available).unwrap();
    }

    /// Takes `amount` out of `held` for good and locks the account.
    pub fn chargeback(&mut self, amount: Amount)
        requires
            old(self)@.release_fits(amount@),
        ensures
            final(self)@ == old(self)@.chargeback(amount@),
    {
        self.held = checked_sub(self.held, amount).unwrap();
        self.total = checked_add(self.held, self.available).unwrap();
        self.locked = true;
    }
}

/// The account of `client` among `accounts`: the one kept there, or a fresh
/// one for a client not seen before.
pub open spec fn account_of(accounts: Map<ClientId, AccountView>, client: ClientId) -> AccountView {
    if accounts.contains_key(client) {
        accounts[client]
    } else {
        AccountView::fresh(client)
    }
}

/// What one transaction leaves behind: the accounts, and the record to be
/// written under the transaction's id, if there is one.
pub struct Step {
    pub accounts: Map<ClientId, AccountView>,
    pub record: Option<RecordView>,
}

/// A step that changes nothing and writes nothing.
pub open spec fn no_op(accounts: Map<ClientId, AccountView>) -> Step {
    Step { accounts, record: None }
}

/// A deposit of `amount` for `client`. The record is written whether or not
/// the balance changed, and says which.
pub open spec fn deposit_step(
    accounts: Map<ClientId, AccountView>,
    client: ClientId,
    amount: AmountView,
) -> Step {
    let account = account_of(accounts, client);
    Step {
        accounts: accounts.insert(client, account.deposit(amount)),
        record: Some(
            RecordView {
                withdrawal: false,
                client,
                amount,
                succeeded: !account.locked,
                disputed: false,
            },
        ),
    }
}

/// A withdrawal of `amount` for `client`. The record is written whether or
/// not the balance changed, and says which.
pub open spec fn withdrawal_step(
    accounts: Map<ClientId, AccountView>,
    client: ClientId,
    amount: AmountView,
) -> Step {
    let account = account_of(accounts, client);
    Step {
        accounts: accounts.insert(client, account.withdraw(amount)),
        record: Some(
            RecordView {
                withdrawal: true,
                client,
                amount,
                succeeded: account.withdraw_applies(amount),
                disputed: false,
            },
        ),
    }
}

/// The amount that `client` can dispute on `record`: none if the record is
/// another client's, is disputed already, or is of a transfer that failed.
pub open spec fn disputable(record: RecordView, client: ClientId) -> Option<AmountView> {
    if record.client != client || record.disputed {
        None
    } else {
        record.successful_amount()
    }
}

/// The amount that `client` can have released on `record`: none if the
/// record is another client's, is not disputed, or is of a transfer that
/// failed.
pub open spec fn resolvable(record: RecordView, client: ClientId) -> Option<AmountView> {
    if record.client != client || !record.disputed {
        None
    } else {
        record.successful_amount()
    }
}

/// The amount that `client` can have charged back on `record`: none if the
/// record is another client's or is of a transfer that failed. An open
/// dispute is not asked for.
pub open spec fn chargeable(record: RecordView, client: ClientId) -> Option<AmountView> {
    if record.client != client {
        None
    } else {
        record.successful_amount()
    }
}

/// Whether the arithmetic of a dispute stays within what a decimal can hold.
pub open spec fn dispute_fits(
    accounts: Map<ClientId, AccountView>,
    client: ClientId,
    record: RecordView,
) -> bool {
    disputable(record, client) matches Some(amount) ==> (decimal_product(
        amount,
        record.direction(),
    ) matches Some(moved) && account_of(accounts, client).dispute_fits(moved))
}

/// A dispute by `client` on the transfer that `record` describes: where
/// there is something to dispute, the amount times the record's direction
/// goes on hold and the record is marked disputed.
pub open spec fn dispute_step(
    accounts: Map<ClientId, AccountView>,
    client: ClientId,
    record: RecordView,
) -> Step {
    match disputable(record, client) {
        None => no_op(accounts),
        Some(amount) => {
            let moved = decimal_product(amount, record.direction()).unwrap();
            Step {
                accounts: accounts.insert(client, account_of(accounts, client).dispute(moved)),
                record: Some(record.with_disputed(true)),
            }
        },
    }
}

/// Whether the arithmetic of a resolve stays within what a decimal can hold.
pub open spec fn resolve_fits(
    accounts: Map<ClientId, AccountView>,
    client: ClientId,
    record: RecordView,
) -> bool {
    resolvable(record, client) matches Some(amount) ==> (decimal_product(
        amount,
        record.direction(),
    ) matches Some(moved) && account_of(accounts, client).release_fits(moved))
}

/// A resolve by `client` on the transfer that `record` describes: where a
/// dispute is open, what it put on hold is released and the record's mark
/// is cleared.
pub open spec fn resolve_step(
    accounts: Map<ClientId, AccountView>,
    client: ClientId,
    record: RecordView,
) -> Step {
    match resolvable(record, client) {
        None => no_op(accounts),
        Some(amount) => {
            let moved = decimal_product(amount, record.direction()).unwrap();
            Step {
                accounts: accounts.insert(client, account_of(accounts, client).resolve(moved)),
                record: Some(record.with_disputed(false)),
            }
        },
    }
}

/// Whether the arithmetic of a chargeback stays within what a decimal can
/// hold.
pub open spec fn chargeback_fits(
    accounts: Map<ClientId, AccountView>,
    client: ClientId,
    record: RecordView,
) -> bool {
    chargeable(record, client) matches Some(amount) ==> account_of(accounts, client).release_fits(
        amount,
    )
}

/// A chargeback by `client` on the transfer that `record` describes: the
/// transfer's amount, unsigned, leaves `held` and the account is locked.
/// Nothing is written.
pub open spec fn chargeback_step(
    accounts: Map<ClientId, AccountView>,
    client: ClientId,
    record: RecordView,
) -> Step {
    match chargeable(record, client) {
        None => no_op(accounts),
        Some(amount) => Step {
            accounts: accounts.insert(client, account_of(accounts, client).chargeback(amount)),
            record: None,
        },
    }
}

/// The view of an optional record.
pub open spec fn viewed_record(r: Option<TransactionRecord>) -> Option<RecordView> {
    match r {
        Some(v) => Some(v@),
        None => None,
    }
}

/// What a transfer of `amount` by `client` leaves behind.
pub open spec fn transfer_step(
    accounts: Map<ClientId, AccountView>,
    tx_type: TransactionType,
    client: ClientId,
    amount: AmountView,
) -> Step {
    if tx_type is Deposit {
        deposit_step(accounts, client, amount)
    } else {
        withdrawal_step(accounts, client, amount)
    }
}

/// Whether the arithmetic of a transfer stays within what a decimal can
/// hold.
pub open spec fn transfer_fits(
    accounts: Map<ClientId, AccountView>,
    tx_type: TransactionType,
    client: ClientId,
    amount: AmountView,
) -> bool {
    if tx_type is Deposit {
        account_of(accounts, client).deposit_fits(amount)
    } else {
        account_of(accounts, client).withdraw_fits(amount)
    }
}

/// What a dispute, resolve or chargeback by `client` leaves behind, given
/// the record of the transfer that it names.
pub open spec fn reference_step(
    accounts: Map<ClientId, AccountView>,
    tx_type: TransactionType,
    client: ClientId,
    record: RecordView,
) -> Step {
    match tx_type {
        TransactionType::Dispute => dispute_step(accounts, client, record),
        TransactionType::Resolve => resolve_step(accounts, client, record),
        _ => chargeback_step(accounts, client, record),
    }
}

/// Whether the arithmetic of a dispute, resolve or chargeback stays within
/// what a decimal can hold.
pub open spec fn reference_fits(
    accounts: Map<ClientId, AccountView>,
    tx_type: TransactionType,
    client: ClientId,
    record: RecordView,
) -> bool {
    match tx_type {
        TransactionType::Dispute => dispute_fits(accounts, client, record),
        TransactionType::Resolve => resolve_fits(accounts, client, record),
        _ => chargeback_fits(accounts, client, record),
    }
}

/// The bytes found in the outcome log, if any were.
pub open spec fn found(stored: Option<Vec<u8>>) -> Option<Seq<u8>> {
    match stored {
        Some(bytes) => Some(bytes@),
        None => None,
    }
}

/// Whether `r` reports a step that writes `record`: its bytes where there
/// is one and it can be encoded, nothing where there is none.
pub open spec fn reports(r: Result<Option<Vec<u8>>, CliError>, record: Option<RecordView>) -> bool {
    match record {
        None => r matches Ok(out) && out is None,
        Some(record) => match bincode_encoding(record) {
            Some(bytes) => r matches Ok(Some(out)) && out@ == bytes,
            None => r matches Err(e) && e is Bincode,
        },
    }
}

/// Whether the arithmetic that `tx` asks for stays within what a decimal can
/// hold. `stored` is what the outcome log holds under the id of `tx`.
pub open spec fn submit_fits(
    accounts: Map<ClientId, AccountView>,
    tx: Transaction,
    stored: Option<Seq<u8>>,
) -> bool {
    if tx.defect() is Some {
        true
    } else if tx.tx_type.is_transfer() {
        transfer_fits(accounts, tx.tx_type, tx.client, tx.spec_amount().unwrap())
    } else {
        stored matches Some(bytes) ==> (bincode_decoding(bytes) matches Some(record)
            ==> reference_fits(accounts, tx.tx_type, tx.client, record))
    }
}

/// Whether `after` and `r` are what submitting `tx` to `before` gives.
///
/// A transaction that breaks a structural rule changes nothing and is
/// reported with that rule's error. A transfer is applied and its record
/// handed back for writing. A dispute, resolve or chargeback does nothing
/// where the log holds no record under its id, fails where the record
/// cannot be read, and else acts on that record.
pub open spec fn submitted(
    before: Map<ClientId, AccountView>,
    tx: Transaction,
    stored: Option<Seq<u8>>,
    after: Map<ClientId, AccountView>,
    r: Result<Option<Vec<u8>>, CliError>,
) -> bool {
    match tx.defect() {
        Some(defect) => after == before && (r matches Err(e) && e == defect),
        None => if tx.tx_type.is_transfer() {
            let step = transfer_step(before, tx.tx_type, tx.client, tx.spec_amount().unwrap());
            after == step.accounts && reports(r, step.record)
        } else {
            match stored {
                None => after == before && reports(r, None),
                Some(bytes) => match bincode_decoding(bytes) {
                    None => after == before && (r matches Err(e) && e is Bincode),
                    Some(record) => {
                        let step = reference_step(before, tx.tx_type, tx.client, record);
                        after == step.accounts && reports(r, step.record)
                    },
                },
            }
        },
    }
}

/// The accounts of the clients with an id below `bound`, in the order of
/// their ids.
pub open spec fn accounts_below(accounts: Map<ClientId, AccountView>, bound: nat) -> Seq<
    AccountView,
>
    decreases bound,
{
    if bound == 0 {
        Seq::empty()
    } else {
        let client = (bound - 1) as ClientId;
        let before = accounts_below(accounts, (bound - 1) as nat);
        if accounts.contains_key(client) {
            before.push(accounts[client])
        } else {
            before
        }
    }
}

/// The views of a list of accounts.
pub open spec fn account_views(list: Seq<Account>) -> Seq<AccountView> {
    list.map_values(|a: Account| a@)
}

/// Whether every account is kept under its own client id.
pub open spec fn keyed_by_client(accounts: Map<ClientId, AccountView>) -> bool {
    forall|c: ClientId| #[trigger] accounts.contains_key(c) ==> accounts[c].client == c
}

/// The ledger: one account for each client that a transaction has named.
pub struct AccountStates {
    accounts: HashMap<ClientId, Account>,
}

impl View for AccountStates {
    type V = Map<ClientId, AccountView>;

    closed spec fn view(&self) -> Map<ClientId, AccountView> {
        self.accounts@.map_values(|a: Account| a@)
    }
}

impl AccountStates {
    #[verifier::type_invariant]
    spec fn well_formed(self) -> bool {
        keyed_by_client(self@)
    }

    /// A ledger without accounts.
    pub fn new() -> (r: Self)
        ensures
            r@ == Map::<ClientId, AccountView>::empty(),
    {
        let r = Self { accounts: HashMap::new() };
        assert(r@ =~= Map::<ClientId, AccountView>::empty());
        r
    }

    /// A copy of the account of `client`, fresh if there is none yet.
    fn account(&self, client: ClientId) -> (r: Account)
        ensures
            r@ == account_of(self@, client),
            r@.client == client,
    {
        broadcast use group_hash_axioms;

        proof {
            use_type_invariant(self);
        }
        match self.accounts.get(&client) {
            Some(a) => *a,
            None => Account::new(client),
        }
    }

    /// Puts `account` in the place of its client's account.
    fn store(&mut self, account: Account)
        ensures
            final(self)@ == old(self)@.insert(account@.client, account@),
    {
        broadcast use group_hash_axioms;

        proof {
            use_type_invariant(&*self);
        }
        let mut accounts = HashMap::new();
        std::mem::swap(&mut accounts, &mut self.accounts);
        accounts.insert(account.client, account);
        proof {
            let after = accounts@.map_values(|a: Account| a@);
            assert(after =~= old(self)@.insert(account@.client, account@));
            assert(keyed_by_client(after));
        }
        self.accounts = accounts;
        assert(self@ =~= old(self)@.insert(account@.client, account@));
    }

    /// Deposits `amount` for `client` and returns the record of it.
    pub fn apply_deposit(&mut self, client: ClientId, amount: Amount) -> (r: TransactionRecord)
        requires
            account_of(old(self)@, client).deposit_fits(amount@),
        ensures
            final(self)@ == deposit_step(old(self)@, client, amount@).accounts,
            Some(r@) == deposit_step(old(self)@, client, amount@).record,
    {
        let mut acct = self.account(client);
        let succeeded = acct.deposit(amount);
        self.store(acct);
        TransactionRecord::deposit(client, amount, succeeded)
    }

    /// Withdraws `amount` for `client` and returns the record of it.
    pub fn apply_withdrawal(&mut self, client: ClientId, amount: Amount) -> (r: TransactionRecord)
        requires
            account_of(old(self)@, client).withdraw_fits(amount@),
        ensures
            final(self)@ == withdrawal_step(old(self)@, client, amount@).accounts,
            Some(r@) == withdrawal_step(old(self)@, client, amount@).record,
    {
        let mut acct = self.account(client);
        let successful = acct.withdraw(amount);
        self.store(acct);
        TransactionRecord::withdrawal(client, amount, successful)
    }

    /// Opens a dispute by `client` on the transfer that `record` describes.
    /// Returns the record as it is to be written back, or `None` where the
    /// dispute is ignored.
    pub fn apply_dispute(&mut self, client: ClientId, record: TransactionRecord) -> (r: Option<
        TransactionRecord,
    >)
        requires
            dispute_fits(old(self)@, client, record@),
        ensures
            final(self)@ == dispute_step(old(self)@, client, record@).accounts,
            viewed_record(r) == dispute_step(old(self)@, client, record@).record,
    {
        let mut record = record;
        let amount = record.successful_amount();
        if record.client() != client || record.disputed() {
            return None;
        }
        let amount = match amount {
            Some(amount) => amount,
            None => {
                return None;
            },
        };
        let mut acct = self.account(client);
        let direction = record.direction();
        acct.dispute(checked_mul(amount, direction).unwrap());
        self.store(acct);
        record.dispute();
        Some(record)
    }

    /// Closes the dispute of `client` on the transfer that `record`
    /// describes. Returns the record as it is to be written back, or `None`
    /// where the resolve is ignored.
    pub fn apply_resolve(&mut self, client: ClientId, record: TransactionRecord) -> (r: Option<
        TransactionRecord,
    >)
        requires
            resolve_fits(old(self)@, client, record@),
        ensures
            final(self)@ == resolve_step(old(self)@, client, record@).accounts,
            viewed_record(r) == resolve_step(old(self)@, client, record@).record,
    {
        let mut record = record;
        let amount = record.successful_amount();
        if record.client() != client || !record.disputed() {
            return None;
        }
        let amount = match amount {
            Some(amount) => amount,
            None => {
                return None;
            },
        };
        let mut acct = self.account(client);
        let direction = record.direction();
        acct.resolve(checked_mul(amount, direction).unwrap());
        self.store(acct);
        record.resolve_dispute();
        Some(record)
    }

    /// Charges the transfer that `record` describes back to `client` and
    /// locks the account. The record stays as it is.
    pub fn apply_chargeback(&mut self, client: ClientId, record: TransactionRecord)
        requires
            chargeback_fits(old(self)@, client, record@),
        ensures
            final(self)@ == chargeback_step(old(self)@, client, record@).accounts,
    {
        let amount = record.successful_amount();
        if record.client() != client {
            return ;
        }
        let amount = match amount {
            Some(amount) => amount,
            None => {
                return ;
            },
        };
        let mut acct = self.account(client);
        acct.chargeback(amount);
        self.store(acct);
    }

    /// Tells whether `apply_dispute` can be called with these arguments.
    pub fn can_apply_dispute(&self, client: ClientId, record: &TransactionRecord) -> (r: bool)
        ensures
            r == dispute_fits(self@, client, record@),
    {
        let mut record = *record;
        if record.client() != client || record.disputed() {
            return true;
        }
        match record.successful_amount() {
            Some(amount) => match checked_mul(amount, record.direction()) {
                Some(moved) => self.account(client).can_dispute(moved),
                None => false,
            },
            None => true,
        }
    }

    /// Tells whether `apply_resolve` can be called with these arguments.
    pub fn can_apply_resolve(&self, client: ClientId, record: &TransactionRecord) -> (r: bool)
        ensures
            r == resolve_fits(self@, client, record@),
    {
        let mut record = *record;
        if record.client() != client || !record.disputed() {
            return true;
        }
        match record.successful_amount() {
            Some(amount) => match checked_mul(amount, record.direction()) {
                Some(moved) => self.account(client).can_release(moved),
                None => false,
            },
            None => true,
        }
    }

    /// Tells whether `apply_chargeback` can be called with these arguments.
    pub fn can_apply_chargeback(&self, client: ClientId, record: &TransactionRecord) -> (r: bool)
        ensures
            r == chargeback_fits(self@, client, record@),
    {
        if record.client() != client {
            return true;
        }
        match record.successful_amount() {
            Some(amount) => self.account(client).can_release(amount),
            None => true,
        }
    }

    /// A deposit, as it arrives: applies it and hands back the bytes of its
    /// record.
    fn handle_deposit(&mut self, tx: Transaction) -> (r: Result<Option<Vec<u8>>, CliError>)
        requires
            tx.amount is Some,
            account_of(old(self)@, tx.client).deposit_fits(tx.spec_amount().unwrap()),
        ensures
            final(self)@ == deposit_step(
                old(self)@,
                tx.client,
                tx.spec_amount().unwrap(),
            ).accounts,
            reports(r, deposit_step(old(self)@, tx.client, tx.spec_amount().unwrap()).record),
    {
        let deposit = self.apply_deposit(tx.client, tx.amount.unwrap());
        let encoded = encode(&deposit)?;
        Ok(Some(encoded))
    }

    /// A withdrawal, as it arrives: applies it and hands back the bytes of
    /// its record.
    fn handle_withdrawal(&mut self, tx: Transaction) -> (r: Result<Option<Vec<u8>>, CliError>)
        requires
            tx.amount is Some,
            account_of(old(self)@, tx.client).withdraw_fits(tx.spec_amount().unwrap()),
        ensures
            final(self)@ == withdrawal_step(
                old(self)@,
                tx.client,
                tx.spec_amount().unwrap(),
            ).accounts,
            reports(r, withdrawal_step(old(self)@, tx.client, tx.spec_amount().unwrap()).record),
    {
        let withdrawal = self.apply_withdrawal(tx.client, tx.amount.unwrap());
        let encoded = encode(&withdrawal)?;
        Ok(Some(encoded))
    }

    /// A dispute, as it arrives: reads the record that the log holds, if it
    /// holds one, and hands back the bytes of the record as changed.
    fn handle_dispute(&mut self, tx: Transaction, stored: Option<Vec<u8>>) -> (r: Result<
        Option<Vec<u8>>,
        CliError,
    >)
        requires
            stored matches Some(bytes) ==> (bincode_decoding(bytes@) matches Some(record)
                ==> dispute_fits(old(self)@, tx.client, record)),
        ensures
            match stored {
                None => final(self)@ == old(self)@ && reports(r, None),
                Some(bytes) => match bincode_decoding(bytes@) {
                    None => final(self)@ == old(self)@ && (r matches Err(e) && e is Bincode),
                    Some(record) => {
                        let step = dispute_step(old(self)@, tx.client, record);
                        final(self)@ == step.accounts && reports(r, step.record)
                    },
                },
            },
    {
        let encoded = match stored {
            Some(encoded) => encoded,
            None => {
                return Ok(None);
            },
        };
        let record = decode(&encoded)?;
        match self.apply_dispute(tx.client, record) {
            Some(record) => {
                let encoded = encode(&record)?;
                Ok(Some(encoded))
            },
            None => Ok(None),
        }
    }

    /// A resolve, as it arrives: reads the record that the log holds, if it
    /// holds one, and hands back the bytes of the record as changed.
    fn handle_resolve(&mut self, tx: Transaction, stored: Option<Vec<u8>>) -> (r: Result<
        Option<Vec<u8>>,
        CliError,
    >)
        requires
            stored matches Some(bytes) ==> (bincode_decoding(bytes@) matches Some(record)
                ==> resolve_fits(old(self)@, tx.client, record)),
        ensures
            match stored {
                None => final(self)@ == old(self)@ && reports(r, None),
                Some(bytes) => match bincode_decoding(bytes@) {
                    None => final(self)@ == old(self)@ && (r matches Err(e) && e is Bincode),
                    Some(record) => {
                        let step = resolve_step(old(self)@, tx.client, record);
                        final(self)@ == step.accounts && reports(r, step.record)
                    },
                },
            },
    {
        let encoded = match stored {
            Some(encoded) => encoded,
            None => {
                return Ok(None);
            },
        };
        let record = decode(&encoded)?;
        match self.apply_resolve(tx.client, record) {
            Some(record) => {
                let encoded = encode(&record)?;
                Ok(Some(encoded))
            },
            None => Ok(None),
        }
    }

    /// A chargeback, as it arrives: reads the record that the log holds, if
    /// it holds one. Nothing is written back.
    fn handle_chargeback(&mut self, tx: Transaction, stored: Option<Vec<u8>>) -> (r: Result<
        Option<Vec<u8>>,
        CliError,
    >)
        requires
            stored matches Some(bytes) ==> (bincode_decoding(bytes@) matches Some(record)
                ==> chargeback_fits(old(self)@, tx.client, record)),
        ensures
            match stored {
                None => final(self)@ == old(self)@ && reports(r, None),
                Some(bytes) => match bincode_decoding(bytes@) {
                    None => final(self)@ == old(self)@ && (r matches Err(e) && e is Bincode),
                    Some(record) => {
                        let step = chargeback_step(old(self)@, tx.client, record);
                        final(self)@ == step.accounts && reports(r, step.record)
                    },
                },
            },
    {
        let encoded = match stored {
            Some(encoded) => encoded,
            None => {
                return Ok(None);
            },
        };
        let record = decode(&encoded)?;
        self.apply_chargeback(tx.client, record);
        Ok(None)
    }

    /// Tells whether `submit` can be called with these arguments: whether
    /// every sum, difference and product it needs can be held.
    pub fn accepts(&self, tx: &Transaction, stored: &Option<Vec<u8>>) -> (r: bool)
        ensures
            r == submit_fits(self@, *tx, found(*stored)),
    {
        if tx.validate().is_err() {
            return true;
        }
        match tx.tx_type {
            TransactionType::Deposit => self.account(tx.client).can_deposit(tx.amount.unwrap()),
            TransactionType::Withdrawal => self.account(tx.client).can_withdraw(
                tx.amount.unwrap(),
            ),
            _ => {
                let record = match stored {
                    Some(encoded) => decode(encoded),
                    None => {
                        return true;
                    },
                };
                match record {
                    Ok(record) => match tx.tx_type {
                        TransactionType::Dispute => self.can_apply_dispute(tx.client, &record),
                        TransactionType::Resolve => self.can_apply_resolve(tx.client, &record),
                        _ => self.can_apply_chargeback(tx.client, &record),
                    },
                    Err(_) => true,
                }
            },
        }
    }

    /// Applies one transaction. `stored` is what the outcome log holds under
    /// the transaction's id; it is read for a dispute, resolve or chargeback
    /// only. The bytes handed back, if any, are to be written to the log
    /// under that id, in the place of what was there.
    ///
    /// A reference to a transfer that is unknown, another client's, in the
    /// wrong dispute state or failed is no error: nothing happens.
    pub fn submit(&mut self, tx: Transaction, stored: Option<Vec<u8>>) -> (r: Result<
        Option<Vec<u8>>,
        CliError,
    >)
        requires
            submit_fits(old(self)@, tx, found(stored)),
        ensures
            submitted(old(self)@, tx, found(stored), final(self)@, r),
    {
        tx.validate()?;
        match tx.tx_type {
            TransactionType::Deposit => self.handle_deposit(tx),
            TransactionType::Withdrawal => self.handle_withdrawal(tx),
            TransactionType::Dispute => self.handle_dispute(tx, stored),
            TransactionType::Resolve => self.handle_resolve(tx, stored),
            TransactionType::ChargeBack => self.handle_chargeback(tx, stored),
        }
    }

    /// As `submit`, after a look at the arithmetic: `None`, with nothing
    /// changed, where a balance would leave what a decimal can hold.
    pub fn try_submit(&mut self, tx: Transaction, stored: Option<Vec<u8>>) -> (r: Option<
        Result<Option<Vec<u8>>, CliError>,
    >)
        ensures
            r is Some <==> submit_fits(old(self)@, tx, found(stored)),
            match r {
                Some(r) => submitted(old(self)@, tx, found(stored), final(self)@, r),
                None => final(self)@ == old(self)@,
            },
    {
        if self.accepts(&tx, &stored) {
            Some(self.submit(tx, stored))
        } else {
            None
        }
    }

    /// Ends the run and hands out every account, in the order of the client
    /// ids.
    pub fn finish(self) -> (r: Vec<Account>)
        ensures
            account_views(r@) == accounts_below(self@, 0x1_0000),
            keyed_by_client(self@),
    {
        broadcast use group_hash_axioms;

        proof {
            use_type_invariant(&self);
        }

        let mut out: Vec<Account> = Vec::new();
        let mut id: u32 = 0;
        assert(account_views(out@) =~= accounts_below(self@, 0));
        while id < 0x1_0000
            invariant
                id <= 0x1_0000,
                account_views(out@) == accounts_below(self@, id as nat),
            decreases 0x1_0000 - id,
        {
            let client = id as ClientId;
            match self.accounts.get(&client) {
                Some(account) => {
                    out.push(*account);
                    assert(account_views(out@) =~= accounts_below(self@, id as nat).push(
                        account@,
                    ));
                },
                None => {},
            }
            id = id + 1;
        }
        out
    }
}

} // verus!
