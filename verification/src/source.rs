//! The sequence producer that the adapter wraps: a capability that yields
//! items one at a time, in a fixed order, with sticky exhaustion (once it
//! reports no item, it reports no item forever).

use crate::model::{after_consume, next_item};
use std::collections::VecDeque;
use vstd::prelude::*;

verus! {

/// A producer of a linear, ordered series of items.
///
/// The abstract state is `remaining()`, the sequence of items still to come;
/// `pull` yields them front first. Exhaustion is sticky by construction: a
/// pull yields no item exactly when nothing remains, and then leaves the
/// producer unchanged.
pub trait Source<T>: Sized {
    /// The items this producer has yet to yield, in the order it will yield
    /// them.
    spec fn remaining(&self) -> Seq<T>;

    /// Whether this producer's count estimate is always exact (lower bound
    /// equal to upper bound equal to the true remaining count).
    spec fn exact(&self) -> bool;

    /// Yield the next item, or report that none remains.
    fn pull(&mut self) -> (item: Option<T>)
        ensures
            item == next_item(old(self).remaining()),
            final(self).remaining() == after_consume(old(self).remaining()),
            final(self).exact() == old(self).exact(),
    ;

    /// A lower bound and, when known, an upper bound on the number of items
    /// still to come.
    fn size_hint(&self) -> (hint: (usize, Option<usize>))
        ensures
            hint.0 <= self.remaining().len(),
            (hint.1 matches Some(upper) ==> self.remaining().len() <= upper),
            self.exact() ==> hint.0 == self.remaining().len() && hint.1 == Some(hint.0),
    ;
}

/// A producer backed by an in-memory queue of items: it yields exactly the
/// items it was built from, front first, and always knows its exact count.
#[derive(Clone, Debug)]
pub struct VecSource<T> {
    items: VecDeque<T>,
}

impl<T> VecSource<T> {
    /// Build a producer that will yield exactly the given items, in order.
    pub fn new(items: Vec<T>) -> (s: Self)
        ensures
            s.remaining() == items@,
            s.exact(),
    {
        let ghost all = items@;
        let mut rest = items;
        let mut queue: VecDeque<T> = VecDeque::new();
        while rest.len() > 0
            invariant
                rest@ + queue@ == all,
            decreases rest.len(),
        {
            let item = rest.pop().unwrap();
            queue.push_front(item);
            proof {
                assert(rest@ + queue@ =~= all);
            }
        }
        let s = VecSource { items: queue };
        proof {
            assert(s.remaining() =~= all);
        }
        s
    }
}

impl<T> Source<T> for VecSource<T> {
    closed spec fn remaining(&self) -> Seq<T> {
        self.items@
    }

    closed spec fn exact(&self) -> bool {
        true
    }

    fn pull(&mut self) -> (item: Option<T>) {
        self.items.pop_front()
    }

    fn size_hint(&self) -> (hint: (usize, Option<usize>)) {
        let count = self.items.len();
        (count, Some(count))
    }
}

} // verus!
