use vstd::prelude::*;

verus! {

/// One committed transfer. Created once, immutable, appended to the log;
/// never mutated or removed.
#[derive(Clone, Copy, Debug, PartialEq, Eq, Structural)]
pub struct Transaction {
    /// The debited account's identifier.
    pub from: u64,
    /// The credited account's identifier.
    pub to: u64,
    /// The amount moved.
    pub amount: i64,
    /// Seconds since the Unix epoch at the moment the transfer committed.
    pub timestamp: u64,
}

/// The identifying content of a record: source, destination, amount.
pub open spec fn entry_of(t: Transaction) -> (u64, u64, int) {
    (t.from, t.to, t.amount as int)
}

/// An append-only history of completed transfers, in commit order.
pub struct TransactionLog {
    entries: Vec<Transaction>,
}

impl TransactionLog {
    /// The recorded transactions, in commit order.
    pub closed spec fn log(&self) -> Seq<Transaction> {
        self.entries@
    }

    /// The source, destination and amount of each record, in commit order.
    pub open spec fn entry_views(&self) -> Seq<(u64, u64, int)> {
        self.log().map_values(|t: Transaction| entry_of(t))
    }

    /// An empty log.
    pub fn new() -> (log: Self)
        ensures
            log.log() == Seq::<Transaction>::empty(),
    {
        TransactionLog { entries: Vec::new() }
    }

    /// Add a record to the end of the sequence. No validation is performed
    /// here; validating is the caller's responsibility before calling.
    pub fn append(&mut self, transaction: Transaction)
        ensures
            final(self).log() == old(self).log().push(transaction),
    {
        self.entries.push(transaction);
    }

    /// How many transfers have been recorded.
    pub fn len(&self) -> (count: usize)
        ensures
            count == self.log().len(),
    {
        self.entries.len()
    }

    /// Read access to the whole history, in commit order.
    pub fn transactions(&self) -> (records: &Vec<Transaction>)
        ensures
            records@ == self.log(),
    {
        &self.entries
    }
}

} // verus!
