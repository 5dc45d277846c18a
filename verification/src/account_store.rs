use crate::errors::LedgerError;
use std::collections::HashMap;
use vstd::prelude::*;

verus! {

/// One account: an externally supplied identifier, unique within the
/// store, and a signed balance. Nothing outside `transfer`'s own check
/// forbids a negative balance.
#[derive(Clone, Copy, Debug)]
pub struct Account {
    pub id: u64,
    pub balance: i64,
}

/// Whether a transfer of `amount` from `from` to `to` passes validation
/// against the balance map `m`: both accounts exist and the source holds
/// at least `amount`.
pub open spec fn transfer_enabled(m: Map<u64, int>, from: u64, to: u64, amount: int) -> bool {
    &&& m.contains_key(from)
    &&& m.contains_key(to)
    &&& m[from] >= amount
}

/// The balance map after a transfer: the source is debited, then the
/// destination is credited out of the debited state, so a self-transfer
/// leaves its balance unchanged.
pub open spec fn transfer_updates(m: Map<u64, int>, from: u64, to: u64, amount: int) -> Map<
    u64,
    int,
> {
    let debited = m.insert(from, m[from] - amount);
    debited.insert(to, debited[to] + amount)
}

/// Whether both balances written by a transfer stay within `i64`.
pub open spec fn transfer_fits(m: Map<u64, int>, from: u64, to: u64, amount: int) -> bool {
    let debited = m.insert(from, m[from] - amount);
    &&& i64::MIN <= m[from] - amount <= i64::MAX
    &&& i64::MIN <= debited[to] + amount <= i64::MAX
}

/// The exclusive-access registry of accounts, keyed by identifier.
/// Accounts are created exactly once and never deleted; balances change
/// only through `adjust_balances`.
pub struct AccountStore {
    accounts: HashMap<u64, Account>,
}

impl AccountStore {
    /// The mathematical content of the store: identifier to balance.
    pub closed spec fn balances(&self) -> Map<u64, int> {
        Map::new(
            |id: u64| self.accounts@.contains_key(id),
            |id: u64| self.accounts@[id].balance as int,
        )
    }

    /// Every stored account carries the identifier it is keyed by.
    pub closed spec fn wf(&self) -> bool {
        forall|id: u64| #[trigger]
            self.accounts@.contains_key(id) ==> self.accounts@[id].id == id
    }

    /// The store holds finitely many accounts.
    pub proof fn lemma_balances_finite(&self)
        ensures
            self.balances().dom().finite(),
    {
        assert(self.balances().dom() =~= self.accounts@.dom());
    }

    /// An empty store.
    pub fn new() -> (store: Self)
        ensures
            store.wf(),
            store.balances() == Map::<u64, int>::empty(),
    {
        let store = AccountStore { accounts: HashMap::new() };
        proof {
            assert(store.balances() =~= Map::<u64, int>::empty());
        }
        store
    }

    /// Insert a fresh account with the given balance; no constraint is
    /// placed on the balance's sign. Fails, changing nothing, exactly when
    /// the identifier is already taken.
    pub fn create_account(&mut self, id: u64, initial_balance: i64) -> (result: Result<
        (),
        LedgerError,
    >)
        requires
            old(self).wf(),
        ensures
            final(self).wf(),
            match result {
                Ok(()) => !old(self).balances().contains_key(id) && final(self).balances() == old(
                    self,
                ).balances().insert(id, initial_balance as int),
                Err(e) => e == LedgerError::AccountExists && old(self).balances().contains_key(id)
                    && final(self).balances() == old(self).balances(),
            },
    {
        if self.accounts.contains_key(&id) {
            return Err(LedgerError::AccountExists);
        }
        self.accounts.insert(id, Account { id, balance: initial_balance });
        proof {
            assert(self.balances() =~= old(self).balances().insert(id, initial_balance as int));
        }
        Ok(())
    }

    /// Whether an account with this identifier exists.
    pub fn has_account(&self, id: u64) -> (present: bool)
        ensures
            present == self.balances().contains_key(id),
    {
        self.accounts.contains_key(&id)
    }

    /// Read-only balance lookup. Fails exactly when the identifier is
    /// absent.
    pub fn get_balance(&self, id: u64) -> (result: Result<i64, LedgerError>)
        ensures
            match result {
                Ok(balance) => self.balances().contains_key(id) && balance as int
                    == self.balances()[id],
                Err(e) => e == LedgerError::AccountNotFound && !self.balances().contains_key(id),
            },
    {
        match self.accounts.get(&id) {
            Some(account) => Ok(account.balance),
            None => Err(LedgerError::AccountNotFound),
        }
    }

    /// The ledger service's mutation primitive: debit `from`, credit `to`,
    /// both visible as one unit behind the store's exclusive access. No
    /// validation happens here beyond what the machine forces; validating
    /// the transfer is the caller's responsibility.
    pub fn adjust_balances(&mut self, from: u64, to: u64, amount: i64)
        requires
            old(self).wf(),
            old(self).balances().contains_key(from),
            old(self).balances().contains_key(to),
            transfer_fits(old(self).balances(), from, to, amount as int),
        ensures
            final(self).wf(),
            final(self).balances() == transfer_updates(old(self).balances(), from, to, amount as int),
    {
        let ghost debited = old(self).balances().insert(
            from,
            old(self).balances()[from] - amount as int,
        );
        let from_balance = self.accounts.get(&from).unwrap().balance;
        self.accounts.insert(from, Account { id: from, balance: from_balance - amount });
        proof {
            assert(self.balances() =~= debited);
        }
        let to_balance = self.accounts.get(&to).unwrap().balance;
        self.accounts.insert(to, Account { id: to, balance: to_balance + amount });
        proof {
            assert(self.balances() =~= transfer_updates(
                old(self).balances(),
                from,
                to,
                amount as int,
            ));
        }
    }
}

} // verus!
