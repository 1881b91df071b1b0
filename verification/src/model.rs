//! The mathematical model of a stream: every contract in this crate speaks of
//! a stream only through the sequence of its remaining items, and these spec
//! functions say what peeking and consuming mean on such a sequence.

use vstd::prelude::*;

verus! {

/// The item that a peek at zero-based offset `n` sees in a stream whose
/// remaining items are `rem`: the `(n+1)`-th item still to come, if the
/// stream reaches that far.
pub open spec fn peeked<T>(rem: Seq<T>, n: int) -> Option<T> {
    if 0 <= n < rem.len() {
        Some(rem[n])
    } else {
        None
    }
}

/// The item that a single consume yields from a stream whose remaining items
/// are `rem`: its front item, or nothing once the stream is exhausted.
pub open spec fn next_item<T>(rem: Seq<T>) -> Option<T> {
    if rem.len() > 0 {
        Some(rem[0])
    } else {
        None
    }
}

/// The remaining items after one consume: the front item is gone; an
/// exhausted stream stays exhausted.
pub open spec fn after_consume<T>(rem: Seq<T>) -> Seq<T> {
    if rem.len() > 0 {
        rem.subrange(1, rem.len() as int)
    } else {
        rem
    }
}

/// The staged count after a peek at offset `n` on an adapter that had
/// `buffered` items staged out of `rem_len` remaining in all: a peek stages
/// exactly as many further items as it needs to reach position `n`, stopping
/// early at exhaustion, and stages nothing when position `n` is staged
/// already.
pub open spec fn staged_after_peek(buffered: int, rem_len: int, n: int) -> int {
    if buffered > n {
        buffered
    } else if n + 1 <= rem_len {
        n + 1
    } else {
        rem_len
    }
}

/// The remaining items after `k` consecutive consumes.
pub open spec fn after_consumes<T>(rem: Seq<T>, k: nat) -> Seq<T>
    decreases k,
{
    if k == 0 {
        rem
    } else {
        after_consumes(after_consume(rem), (k - 1) as nat)
    }
}

} // verus!
