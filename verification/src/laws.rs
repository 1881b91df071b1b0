//! Laws of the stream model: what peeking and consuming guarantee jointly,
//! proved once over the model and so holding of every adapter.

use crate::model::{after_consume, after_consumes, next_item, peeked, staged_after_peek};
use vstd::prelude::*;

verus! {

/// Peeking is idempotent: a repeated peek at the same offset, with no consume
/// between, sees the same item — the stream is unchanged, so [`peeked`] gives
/// the same answer — and stages nothing further from the producer: the staged
/// count a peek establishes is a fixed point of peeking at that offset again,
/// so at most one underlying pull ever happens per distinct position.
pub proof fn lemma_repeated_peek_stages_nothing(buffered: int, rem_len: int, n: int)
    requires
        0 <= buffered <= rem_len,
        0 <= n,
    ensures
        staged_after_peek(staged_after_peek(buffered, rem_len, n), rem_len, n)
            == staged_after_peek(buffered, rem_len, n),
{
}

/// Peeking agrees with consuming: for every stream and every offset `n`, a
/// peek at `n` sees exactly the item that the `(n+1)`-th of `n + 1`
/// consecutive consumes from the same position yields — the peek sees no
/// item exactly when that consume yields none.
pub proof fn lemma_peek_agrees_with_consume<T>(rem: Seq<T>, n: nat)
    ensures
        next_item(after_consumes(rem, n)) == peeked(rem, n as int),
    decreases n,
{
    if n > 0 {
        lemma_peek_agrees_with_consume::<T>(after_consume(rem), (n - 1) as nat);
        if rem.len() > 0 {
            assert(peeked(after_consume(rem), n as int - 1) == peeked(rem, n as int));
        }
    }
}

/// Consuming is faithful: the stream of consumes reproduces the remaining
/// sequence exactly, element for element and in order — the `(k+1)`-th
/// consume yields the `k`-th remaining item while any remain, and no item
/// from then on. In particular, a freshly wrapped producer's consume stream
/// is the producer's own sequence.
pub proof fn lemma_consume_stream_faithful<T>(rem: Seq<T>, k: nat)
    ensures
        k < rem.len() ==> next_item(after_consumes(rem, k)) == Some(rem[k as int]),
        k >= rem.len() ==> next_item(after_consumes(rem, k)) is None,
{
    lemma_peek_agrees_with_consume::<T>(rem, k);
}

/// Exhaustion is permanent: once nothing remains, every further consume
/// yields no item and leaves the stream exhausted, and a peek at any offset
/// yields no item.
pub proof fn lemma_exhaustion_permanent<T>(rem: Seq<T>, k: nat, n: int)
    requires
        rem.len() == 0,
    ensures
        after_consumes(rem, k) == rem,
        next_item(after_consumes(rem, k)) is None,
        peeked(rem, n) is None,
    decreases k,
{
    if k > 0 {
        lemma_exhaustion_permanent::<T>(rem, (k - 1) as nat, n);
    }
}

} // verus!
