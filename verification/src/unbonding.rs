//! The queue of withdrawal requests of one account: which have matured, what
//! they amount to, and which stay behind.

use vstd::prelude::*;
use crate::records::UnbondingInfo;

verus! {

/// A request has matured once the clock has reached its unlock time.
pub open spec fn is_matured(request: UnbondingInfo, now: u64) -> bool {
    request.unlock_time <= now
}

/// The requests of `queue` that have matured at `now`, in their order.
pub open spec fn matured(queue: Seq<UnbondingInfo>, now: u64) -> Seq<UnbondingInfo> {
    queue.filter(|request: UnbondingInfo| is_matured(request, now))
}

/// The requests of `queue` that have not matured at `now`, in their order.
pub open spec fn still_pending(queue: Seq<UnbondingInfo>, now: u64) -> Seq<UnbondingInfo> {
    queue.filter(|request: UnbondingInfo| !is_matured(request, now))
}

/// The sum of the amounts of the requests.
pub open spec fn total_amount(requests: Seq<UnbondingInfo>) -> nat
    decreases requests.len(),
{
    if requests.len() == 0 {
        0
    } else {
        total_amount(requests.drop_last()) + requests.last().amount as nat
    }
}

/// A queue with one more request at its end splits as the queue did, with the
/// new request on the side that its unlock time puts it.
pub proof fn lemma_split_push(queue: Seq<UnbondingInfo>, request: UnbondingInfo, now: u64)
    ensures
        is_matured(request, now) ==> matured(queue.push(request), now) == matured(queue, now).push(
            request,
        ) && still_pending(queue.push(request), now) == still_pending(queue, now),
        !is_matured(request, now) ==> matured(queue.push(request), now) == matured(queue, now)
            && still_pending(queue.push(request), now) == still_pending(queue, now).push(request),
        total_amount(queue.push(request)) == total_amount(queue) + request.amount,
{
    reveal(Seq::filter);
    assert(queue.push(request).drop_last() =~= queue);
}

/// Splitting a queue loses nothing and invents nothing: each request is on
/// one side, and the two sides hold what their names say.
pub proof fn lemma_split_is_partition(queue: Seq<UnbondingInfo>, now: u64)
    ensures
        matured(queue, now).len() + still_pending(queue, now).len() == queue.len(),
        total_amount(matured(queue, now)) + total_amount(still_pending(queue, now))
            == total_amount(queue),
        forall|i: int|
            0 <= i < matured(queue, now).len() ==> is_matured(
                #[trigger] matured(queue, now)[i],
                now,
            ),
        forall|i: int|
            0 <= i < still_pending(queue, now).len() ==> !is_matured(
                #[trigger] still_pending(queue, now)[i],
                now,
            ),
    decreases queue.len(),
{
    reveal(Seq::filter);
    if queue.len() > 0 {
        let front = queue.drop_last();
        lemma_split_is_partition(front, now);
        assert(front.push(queue.last()) =~= queue);
        lemma_split_push(front, queue.last(), now);
        lemma_split_push(matured(front, now), queue.last(), now);
        lemma_split_push(still_pending(front, now), queue.last(), now);
    }
}

/// What one pass over a queue finds.
pub struct Settlement {
    /// How many requests have matured.
    pub matured_count: usize,
    /// The sum of the amounts of the matured requests.
    pub matured_total: u128,
    /// The requests that stay in the queue, in their order.
    pub remaining: Vec<UnbondingInfo>,
}

/// Splits a queue in a single pass into what has matured at `now` and what
/// stays behind.
pub fn split_matured(queue: &Vec<UnbondingInfo>, now: u64) -> (s: Settlement)
    ensures
        s.matured_count == matured(queue@, now).len(),
        s.matured_total == total_amount(matured(queue@, now)),
        s.remaining@ == still_pending(queue@, now),
{
    let mut count: usize = 0;
    let mut total: u128 = 0;
    let mut remaining: Vec<UnbondingInfo> = Vec::new();
    let mut i: usize = 0;
    proof {
        reveal(Seq::filter);
        assert(queue@.take(0) =~= Seq::<UnbondingInfo>::empty());
    }
    while i < queue.len()
        invariant
            i <= queue@.len(),
            count == matured(queue@.take(i as int), now).len(),
            count <= i,
            total == total_amount(matured(queue@.take(i as int), now)),
            total <= i * u64::MAX,
            remaining@ == still_pending(queue@.take(i as int), now),
        decreases queue@.len() - i,
    {
        let request: UnbondingInfo = queue[i];
        proof {
            assert(queue@.take(i + 1) =~= queue@.take(i as int).push(request));
            lemma_split_push(queue@.take(i as int), request, now);
            lemma_split_push(matured(queue@.take(i as int), now), request, now);
            assert((i + 1) * u64::MAX == i * u64::MAX + u64::MAX) by (nonlinear_arith);
            assert(i * u64::MAX + u64::MAX <= u128::MAX) by (nonlinear_arith)
                requires
                    i <= u64::MAX,
            ;
        }
        if request.unlock_time <= now {
            count += 1;
            total += request.amount as u128;
        } else {
            remaining.push(request);
        }
        i += 1;
    }
    assert(queue@.take(i as int) =~= queue@);
    Settlement { matured_count: count, matured_total: total, remaining }
}

/// What is paid out of a matured total: all of it, or, for a slashed
/// account, what is left after `floor(total * slashing_rate / 10000)` is
/// deducted.
pub open spec fn payout_of(total: u64, slashed: bool, slashing_rate: u64) -> int {
    if slashed {
        total - (total * slashing_rate) / 10000
    } else {
        total as int
    }
}

/// Computes [`payout_of`]. The rate is in basis points; for a slashed account
/// it must not exceed the whole (10000).
pub fn settlement_payout(total: u64, slashed: bool, slashing_rate: u64) -> (paid: u64)
    requires
        slashed ==> slashing_rate <= 10000,
    ensures
        paid == payout_of(total, slashed, slashing_rate),
        paid <= total,
{
    if slashed {
        assert(total * slashing_rate <= total * 10000) by (nonlinear_arith)
            requires
                slashing_rate <= 10000,
                0 <= total,
        ;
        let deducted: u128 = (total as u128 * slashing_rate as u128) / 10000;
        total - (deducted as u64)
    } else {
        total
    }
}

} // verus!
