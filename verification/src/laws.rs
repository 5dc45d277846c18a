use crate::account_store::transfer_enabled;
use crate::account_store::transfer_updates;
use vstd::prelude::*;

verus! {

/// The total of all balances in the map: zero for the empty map, else one
/// balance plus the total of the rest.
pub open spec fn map_sum(m: Map<u64, int>) -> int
    decreases m.dom().len(),
        when m.dom().finite()
{
    if m.dom().len() == 0 {
        0
    } else {
        let k = m.dom().choose();
        m[k] + map_sum(m.remove(k))
    }
}

/// Removing a present key takes exactly its balance out of the total.
pub proof fn lemma_map_sum_remove(m: Map<u64, int>, k: u64)
    requires
        m.dom().finite(),
        m.dom().contains(k),
    ensures
        map_sum(m) == map_sum(m.remove(k)) + m[k],
    decreases m.dom().len(),
{
    let chosen = m.dom().choose();
    if chosen == k {
    } else {
        lemma_map_sum_remove(m.remove(chosen), k);
        lemma_map_sum_remove(m.remove(k), chosen);
        assert(m.remove(chosen).remove(k) =~= m.remove(k).remove(chosen));
    }
}

/// Overwriting a present key changes the total by the difference between
/// the new balance and the old one.
pub proof fn lemma_map_sum_update(m: Map<u64, int>, k: u64, v: int)
    requires
        m.dom().finite(),
        m.dom().contains(k),
    ensures
        map_sum(m.insert(k, v)) == map_sum(m) - m[k] + v,
{
    lemma_map_sum_remove(m, k);
    lemma_map_sum_remove(m.insert(k, v), k);
    assert(m.insert(k, v).remove(k) =~= m.remove(k));
}

/// Conservation: a successful transfer leaves the combined balance of the
/// two involved accounts unchanged, touches no other account, and neither
/// creates nor deletes accounts. A self-transfer nets to no change at all.
pub proof fn lemma_transfer_conserves_pair(m: Map<u64, int>, from: u64, to: u64, amount: int)
    requires
        transfer_enabled(m, from, to, amount),
    ensures
        transfer_updates(m, from, to, amount)[from] + transfer_updates(m, from, to, amount)[to]
            == m[from] + m[to],
        forall|k: u64|
            k != from && k != to ==> #[trigger] transfer_updates(m, from, to, amount)[k] == m[k],
        transfer_updates(m, from, to, amount).dom() == m.dom(),
{
    assert(transfer_updates(m, from, to, amount).dom() =~= m.dom());
}

/// A successful transfer preserves the total of all balances: the debit
/// and the credit are equal and opposite.
pub proof fn lemma_transfer_preserves_sum(m: Map<u64, int>, from: u64, to: u64, amount: int)
    requires
        m.dom().finite(),
        transfer_enabled(m, from, to, amount),
    ensures
        map_sum(transfer_updates(m, from, to, amount)) == map_sum(m),
        transfer_updates(m, from, to, amount).dom() == m.dom(),
{
    let debited = m.insert(from, m[from] - amount);
    lemma_map_sum_update(m, from, m[from] - amount);
    lemma_map_sum_update(debited, to, debited[to] + amount);
    lemma_transfer_conserves_pair(m, from, to, amount);
}

/// One transfer request: source, destination, amount.
pub type TransferRequest = (u64, u64, int);

/// The balance map and the log after a batch of transfer requests runs in
/// the given order. Each request is validated against the state it finds:
/// an enabled request moves its amount and appends its record; a request
/// that fails validation changes nothing and logs nothing.
pub open spec fn apply_requests(
    m: Map<u64, int>,
    log: Seq<TransferRequest>,
    requests: Seq<TransferRequest>,
) -> (Map<u64, int>, Seq<TransferRequest>)
    decreases requests.len(),
{
    if requests.len() == 0 {
        (m, log)
    } else {
        let r = requests[0];
        if transfer_enabled(m, r.0, r.1, r.2) {
            apply_requests(
                transfer_updates(m, r.0, r.1, r.2),
                log.push(r),
                requests.drop_first(),
            )
        } else {
            apply_requests(m, log, requests.drop_first())
        }
    }
}

/// Whether every request in the batch passes validation at the point it
/// runs, so the whole batch commits with no failures.
pub open spec fn all_enabled(m: Map<u64, int>, requests: Seq<TransferRequest>) -> bool
    decreases requests.len(),
{
    requests.len() == 0 || {
        let r = requests[0];
        transfer_enabled(m, r.0, r.1, r.2) && all_enabled(
            transfer_updates(m, r.0, r.1, r.2),
            requests.drop_first(),
        )
    }
}

/// Atomicity under concurrency: all operations serialize behind the
/// store's exclusive access, so any interleaving of concurrent transfers
/// is some order of them. Running the transfers in any order — whether
/// each succeeds or fails — preserves the total of all balances and the
/// set of accounts.
pub proof fn lemma_interleaving_preserves_total(
    m: Map<u64, int>,
    log: Seq<TransferRequest>,
    requests: Seq<TransferRequest>,
)
    requires
        m.dom().finite(),
    ensures
        apply_requests(m, log, requests).0.dom() == m.dom(),
        map_sum(apply_requests(m, log, requests).0) == map_sum(m),
    decreases requests.len(),
{
    if requests.len() == 0 {
    } else {
        let r = requests[0];
        if transfer_enabled(m, r.0, r.1, r.2) {
            lemma_transfer_preserves_sum(m, r.0, r.1, r.2);
            lemma_interleaving_preserves_total(
                transfer_updates(m, r.0, r.1, r.2),
                log.push(r),
                requests.drop_first(),
            );
        } else {
            lemma_interleaving_preserves_total(m, log, requests.drop_first());
        }
    }
}

/// Log fidelity: a batch of K transfers that all pass validation appends
/// exactly K records, in order, each matching its request's source,
/// destination and amount; nothing already logged is disturbed.
pub proof fn lemma_log_fidelity(
    m: Map<u64, int>,
    log: Seq<TransferRequest>,
    requests: Seq<TransferRequest>,
)
    requires
        all_enabled(m, requests),
    ensures
        apply_requests(m, log, requests).1 == log + requests,
        apply_requests(m, log, requests).1.len() == log.len() + requests.len(),
        forall|i: int|
            0 <= i < requests.len() ==> apply_requests(m, log, requests).1[log.len() + i]
                == requests[i],
    decreases requests.len(),
{
    if requests.len() == 0 {
        assert(log + requests =~= log);
    } else {
        let r = requests[0];
        lemma_log_fidelity(
            transfer_updates(m, r.0, r.1, r.2),
            log.push(r),
            requests.drop_first(),
        );
        assert(log.push(r) + requests.drop_first() =~= log + requests);
    }
}

/// An error leaves the state exactly as it was: a request that fails
/// validation changes no balance and grows no log, whatever came before
/// or comes after it in the batch.
pub proof fn lemma_failure_is_noop(
    m: Map<u64, int>,
    log: Seq<TransferRequest>,
    requests: Seq<TransferRequest>,
)
    requires
        requests.len() > 0,
        !transfer_enabled(m, requests[0].0, requests[0].1, requests[0].2),
    ensures
        apply_requests(m, log, requests) == apply_requests(m, log, requests.drop_first()),
{
}

} // verus!
