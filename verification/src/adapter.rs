//! The lookahead adapter: wraps a [`Source`] and adds the ability to peek
//! arbitrarily far ahead without consuming, by staging pre-fetched items in
//! an internal queue.

use crate::model::{after_consume, next_item, peeked, staged_after_peek};
use crate::source::Source;
use std::collections::VecDeque;
use vstd::prelude::*;

verus! {

/// An adapter over a sequence producer that supports peeking at any forward
/// offset without consuming.
///
/// The observable stream is `remaining()`: the staged items followed by
/// whatever the wrapped producer has yet to yield. Consuming yields exactly
/// that sequence, in order — the adapter never reorders, drops, duplicates,
/// or injects items.
#[derive(Clone, Debug)]
pub struct Lookahead<T, S: Source<T>> {
    source: S,
    queue: VecDeque<T>,
}

impl<T, S: Source<T>> Lookahead<T, S> {
    /// The items still obtainable by consuming: the staged items first, then
    /// the wrapped producer's own remaining items.
    pub closed spec fn remaining(&self) -> Seq<T> {
        self.queue@ + self.source.remaining()
    }

    /// Whether the wrapped producer's count estimate is exact; the adapter
    /// inherits this capability, since the staging queue's length is always
    /// known exactly.
    pub closed spec fn exact(&self) -> bool {
        self.source.exact()
    }

    /// How many items are staged: already pulled from the producer but not
    /// yet consumed.
    pub closed spec fn buffered(&self) -> int {
        self.queue@.len() as int
    }

    /// Wrap the given producer; nothing is staged yet.
    pub fn new(source: S) -> (it: Self)
        ensures
            it.remaining() == source.remaining(),
            it.exact() == source.exact(),
            it.buffered() == 0,
    {
        let it = Lookahead { source, queue: VecDeque::new() };
        proof {
            assert(it.remaining() =~= it.source.remaining());
        }
        it
    }

    /// Wrap the given producer, pre-reserving staging storage for `capacity`
    /// items. A pure performance hint: behaviour is identical to [`Self::new`].
    pub fn with_capacity(source: S, capacity: usize) -> (it: Self)
        ensures
            it.remaining() == source.remaining(),
            it.exact() == source.exact(),
            it.buffered() == 0,
    {
        let it = Lookahead { source, queue: VecDeque::with_capacity(capacity) };
        proof {
            assert(it.remaining() =~= it.source.remaining());
        }
        it
    }

    /// Peek at the item `n` positions ahead without consuming anything: the
    /// item that the `(n+1)`-th consecutive call of [`Self::next`] from here
    /// would yield, or no item if the stream ends sooner.
    ///
    /// When `n` is `0`, this peeks at the item the very next [`Self::next`]
    /// would yield.
    ///
    /// Peeking never changes the observable stream, so repeated peeks at the
    /// same offset, with no consume between them, see the same item. The
    /// producer is pulled exactly as far as the peek needs and no further —
    /// once a position has been staged, peeking at it again pulls nothing —
    /// which the clause about `buffered` below pins down.
    pub fn lookahead(&mut self, n: usize) -> (item: Option<&T>)
        ensures
            final(self).remaining() == old(self).remaining(),
            final(self).exact() == old(self).exact(),
            (match item {
                Some(x) => peeked(old(self).remaining(), n as int) == Some(*x),
                None => peeked(old(self).remaining(), n as int) is None,
            }),
            final(self).buffered() == staged_after_peek(
                old(self).buffered(),
                old(self).remaining().len() as int,
                n as int,
            ),
    {
        let ghost orig_rem = self.remaining();
        let ghost orig_queue_len = self.queue@.len() as int;
        let mut exhausted = false;
        while !exhausted && self.queue.len() <= n
            invariant
                self.queue@ + self.source.remaining() == orig_rem,
                self.source.exact() == old(self).exact(),
                exhausted ==> self.source.remaining().len() == 0,
                exhausted ==> self.queue@.len() <= n,
                orig_queue_len == old(self).queue@.len() as int,
                orig_queue_len > n as int ==> self.queue@ == old(self).queue@,
                orig_queue_len <= n as int ==> orig_queue_len <= self.queue@.len() <= n + 1,
            decreases n + 1 - self.queue@.len() as int, (if exhausted { 0int } else { 1int }),
        {
            match self.source.pull() {
                Some(item) => {
                    self.queue.push_back(item);
                    proof {
                        assert(self.queue@ + self.source.remaining() =~= orig_rem);
                    }
                },
                None => {
                    exhausted = true;
                },
            }
        }
        if n < self.queue.len() {
            Some(&self.queue[n])
        } else {
            None
        }
    }

    /// Consume and yield the next item of the stream: the front staged item
    /// if any is staged, otherwise one pulled directly from the producer; no
    /// item once the stream is exhausted. Advances the stream by exactly one
    /// item.
    pub fn next(&mut self) -> (item: Option<T>)
        ensures
            item == next_item(old(self).remaining()),
            final(self).remaining() == after_consume(old(self).remaining()),
            final(self).exact() == old(self).exact(),
            final(self).buffered() == if old(self).buffered() > 0 {
                old(self).buffered() - 1
            } else {
                0
            },
    {
        let popped = self.queue.pop_front();
        match popped {
            Some(item) => {
                proof {
                    assert(self.remaining() =~= after_consume(old(self).remaining()));
                }
                Some(item)
            },
            None => {
                proof {
                    assert(old(self).remaining() =~= old(self).source.remaining());
                }
                let pulled = self.source.pull();
                proof {
                    assert(self.remaining() =~= self.source.remaining());
                }
                pulled
            },
        }
    }

    /// A lower bound and, when known, an upper bound on how many items remain
    /// obtainable via [`Self::next`]: the producer's own estimate plus the
    /// staged count, component-wise. When either component's sum would not
    /// fit, the lower bound saturates and the upper bound becomes unknown.
    /// When the producer's estimate is exact, so is the adapter's.
    pub fn size_hint(&self) -> (hint: (usize, Option<usize>))
        ensures
            hint.0 <= self.remaining().len(),
            (hint.1 matches Some(upper) ==> self.remaining().len() <= upper),
            self.exact() && self.remaining().len() <= usize::MAX ==> hint.0
                == self.remaining().len() && hint.1 == Some(hint.0),
    {
        let queued = self.queue.len();
        let (lower, upper) = self.source.size_hint();
        let low = if lower <= usize::MAX - queued {
            lower + queued
        } else {
            usize::MAX
        };
        let high = match upper {
            Some(u) => if u <= usize::MAX - queued {
                Some(u + queued)
            } else {
                None
            },
            None => None,
        };
        (low, high)
    }
}

/// Wrap the given producer in a [`Lookahead`] adapter.
pub fn lookahead<T, S: Source<T>>(source: S) -> (it: Lookahead<T, S>)
    ensures
        it.remaining() == source.remaining(),
        it.exact() == source.exact(),
        it.buffered() == 0,
{
    Lookahead::new(source)
}

} // verus!
