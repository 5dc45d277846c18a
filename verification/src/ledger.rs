use crate::account_store::transfer_enabled;
use crate::account_store::transfer_fits;
use crate::account_store::transfer_updates;
use crate::account_store::AccountStore;
use crate::errors::LedgerError;
use crate::transaction_log::entry_of;
use crate::transaction_log::Transaction;
use crate::transaction_log::TransactionLog;
use vstd::prelude::*;

verus! {

/// Relies on `std::time::SystemTime::now` for the wall clock: seconds
/// since the Unix epoch, or zero where the clock reads earlier than the
/// epoch. Nothing is promised of the result: it depends on the clock.
#[verifier::external_body]
fn now_seconds() -> u64 {
    match std::time::SystemTime::now().duration_since(std::time::UNIX_EPOCH) {
        Ok(elapsed) => elapsed.as_secs(),
        Err(_) => 0,
    }
}

/// The ledger service: validates and executes transfers against the
/// account store and, only on success, appends to the transaction log.
///
/// The whole aggregate is one exclusive region: every operation takes it
/// by `&mut` (or `&` for reads), so concurrent callers serialize and each
/// operation runs to completion against a state no other caller is
/// touching. A transfer appends its record before that exclusive access is
/// given up, so log order matches commit order.
pub struct PaymentSystem {
    store: AccountStore,
    log: TransactionLog,
}

impl PaymentSystem {
    /// The balance of each existing account.
    pub closed spec fn balances(&self) -> Map<u64, int> {
        self.store.balances()
    }

    /// The recorded transactions, in commit order.
    pub closed spec fn log(&self) -> Seq<Transaction> {
        self.log.log()
    }

    /// The source, destination and amount of each record, in commit order.
    pub open spec fn log_entries(&self) -> Seq<(u64, u64, int)> {
        self.log().map_values(|t: Transaction| entry_of(t))
    }

    /// Every stored account carries the identifier it is keyed by.
    pub closed spec fn wf(&self) -> bool {
        self.store.wf()
    }

    /// The ledger holds finitely many accounts.
    pub proof fn lemma_balances_finite(&self)
        ensures
            self.balances().dom().finite(),
    {
        self.store.lemma_balances_finite();
    }

    /// A ledger with no accounts and an empty log.
    pub fn new() -> (system: Self)
        ensures
            system.wf(),
            system.balances() == Map::<u64, int>::empty(),
            system.log() == Seq::<Transaction>::empty(),
    {
        PaymentSystem { store: AccountStore::new(), log: TransactionLog::new() }
    }

    /// Create an account with the given identifier and starting balance.
    /// Fails with `AccountExists`, changing nothing, exactly when the
    /// identifier was used before, whatever balance is supplied.
    pub fn create_account(&mut self, id: u64, initial_balance: i64) -> (result: Result<
        (),
        LedgerError,
    >)
        requires
            old(self).wf(),
        ensures
            final(self).wf(),
            final(self).log() == old(self).log(),
            match result {
                Ok(()) => !old(self).balances().contains_key(id) && final(self).balances() == old(
                    self,
                ).balances().insert(id, initial_balance as int),
                Err(e) => e == LedgerError::AccountExists && old(self).balances().contains_key(id)
                    && final(self).balances() == old(self).balances(),
            },
    {
        self.store.create_account(id, initial_balance)
    }

    /// Read-only balance lookup. Fails with `AccountNotFound` exactly when
    /// the identifier is absent.
    pub fn get_balance(&self, id: u64) -> (result: Result<i64, LedgerError>)
        ensures
            match result {
                Ok(balance) => self.balances().contains_key(id) && balance as int
                    == self.balances()[id],
                Err(e) => e == LedgerError::AccountNotFound && !self.balances().contains_key(id),
            },
    {
        self.store.get_balance(id)
    }

    /// Move `amount` from account `from` to account `to`.
    ///
    /// Validation order: `from` must exist, then `to` must exist (each else
    /// `AccountNotFound`), then `from`'s balance must be at least `amount`
    /// (else `InsufficientFunds`). On any failure nothing changes and
    /// nothing is logged. On success the source is debited and the
    /// destination credited as one indivisible state transition, and one
    /// record with the transfer's source, destination, amount and a
    /// wall-clock timestamp is appended to the log before exclusive access
    /// is released. A self-transfer is permitted: it nets to no balance
    /// change but still appends a record. The amount's sign is not checked;
    /// a negative amount moves value in the opposite direction.
    pub fn transfer(&mut self, from: u64, to: u64, amount: i64) -> (result: Result<
        (),
        LedgerError,
    >)
        requires
            old(self).wf(),
            transfer_enabled(old(self).balances(), from, to, amount as int) ==> transfer_fits(
                old(self).balances(),
                from,
                to,
                amount as int,
            ),
        ensures
            final(self).wf(),
            result is Ok <==> transfer_enabled(
                old(self).balances(),
                from,
                to,
                amount as int,
            ),
            match result {
                Ok(()) => {
                    &&& final(self).balances() == transfer_updates(
                        old(self).balances(),
                        from,
                        to,
                        amount as int,
                    )
                    &&& final(self).log().len() == old(self).log().len() + 1
                    &&& final(self).log().subrange(0, old(self).log().len() as int) == old(
                        self,
                    ).log()
                    &&& final(self).log().last().from == from
                    &&& final(self).log().last().to == to
                    &&& final(self).log().last().amount == amount
                    &&& final(self).log_entries() == old(self).log_entries().push(
                        (from, to, amount as int),
                    )
                },
                Err(e) => {
                    &&& final(self).balances() == old(self).balances()
                    &&& final(self).log() == old(self).log()
                    &&& (e == LedgerError::AccountNotFound <==> (!old(
                        self,
                    ).balances().contains_key(from) || !old(self).balances().contains_key(to)))
                    &&& (e == LedgerError::InsufficientFunds <==> old(
                        self,
                    ).balances().contains_key(from) && old(self).balances().contains_key(to) && old(
                        self,
                    ).balances()[from] < amount)
                },
            },
    {
        let from_balance = match self.store.get_balance(from) {
            Ok(balance) => balance,
            Err(error) => {
                return Err(error);
            },
        };
        if !self.store.has_account(to) {
            return Err(LedgerError::AccountNotFound);
        }
        if from_balance < amount {
            return Err(LedgerError::InsufficientFunds);
        }
        self.store.adjust_balances(from, to, amount);
        let timestamp = now_seconds();
        self.log.append(Transaction { from, to, amount, timestamp });
        proof {
            assert(self.log().subrange(0, old(self).log().len() as int) =~= old(self).log());
            assert(self.log_entries() =~= old(self).log_entries().push((from, to, amount as int)));
        }
        Ok(())
    }

    /// How many transfers have committed.
    pub fn log_len(&self) -> (count: usize)
        ensures
            count == self.log().len(),
    {
        self.log.len()
    }

    /// Read access to the transfer history, in commit order.
    pub fn transactions(&self) -> (records: &Vec<Transaction>)
        ensures
            records@ == self.log(),
    {
        self.log.transactions()
    }
}

} // verus!
