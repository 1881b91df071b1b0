use lookahead::{lookahead, Lookahead, VecSource};

#[test]
fn zero() {
    let inner = VecSource::new(vec![1, 2]);
    let mut iter = Lookahead::new(inner);
    assert_eq!(iter.lookahead(0), Some(&1));
}

#[test]
fn one() {
    let inner = VecSource::new(vec![1, 2]);
    let mut iter = Lookahead::new(inner);
    assert_eq!(iter.lookahead(1), Some(&2));
}

#[test]
fn two() {
    let inner = VecSource::new(vec![1, 2]);
    let mut iter = Lookahead::new(inner);
    assert_eq!(iter.lookahead(2), None);
}

#[test]
fn next() {
    let inner = VecSource::new(vec![1, 2]);
    let mut iter = Lookahead::new(inner);
    let _ = iter.next();
    assert_eq!(iter.lookahead(0), Some(&2));
}

#[test]
fn size_hint() {
    let inner = VecSource::new(vec![1, 2]);
    let mut iter = Lookahead::new(inner);
    assert_eq!(iter.size_hint(), (2, Some(2)));
    let _ = iter.lookahead(1);
    assert_eq!(iter.size_hint(), (2, Some(2)));
    let _ = iter.next();
    assert_eq!(iter.size_hint(), (1, Some(1)));
}

#[test]
fn free_function_wraps_like_new() {
    let mut iter = lookahead(VecSource::new(vec![7, 8, 9]));
    assert_eq!(iter.lookahead(0), Some(&7));
    assert_eq!(iter.next(), Some(7));
    assert_eq!(iter.next(), Some(8));
    assert_eq!(iter.next(), Some(9));
    assert_eq!(iter.next(), None);
}

#[test]
fn peek_then_consume_agree() {
    // The item seen by a peek at offset n equals the (n+1)-th consume.
    for n in 0..5usize {
        let mut iter = Lookahead::new(VecSource::new(vec![10, 20, 30]));
        let peeked = iter.lookahead(n).copied();
        let mut last = None;
        for _ in 0..n + 1 {
            last = iter.next();
        }
        assert_eq!(peeked, last);
    }
}

#[test]
fn repeated_peek_is_idempotent() {
    let mut iter = Lookahead::new(VecSource::new(vec![4, 5, 6]));
    assert_eq!(iter.lookahead(1).copied(), Some(5));
    assert_eq!(iter.lookahead(1).copied(), Some(5));
    assert_eq!(iter.lookahead(1).copied(), Some(5));
    assert_eq!(iter.lookahead(5), None);
    assert_eq!(iter.lookahead(5), None);
    // Peeking never consumed anything.
    assert_eq!(iter.size_hint(), (3, Some(3)));
}

#[test]
fn consume_only_reproduces_source() {
    let items = vec![3, 1, 4, 1, 5, 9, 2, 6];
    let mut iter = Lookahead::new(VecSource::new(items.clone()));
    let mut produced = Vec::new();
    while let Some(item) = iter.next() {
        produced.push(item);
    }
    assert_eq!(produced, items);
}

#[test]
fn exhaustion_is_permanent() {
    let mut iter = Lookahead::new(VecSource::new(vec![1]));
    assert_eq!(iter.next(), Some(1));
    assert_eq!(iter.next(), None);
    assert_eq!(iter.next(), None);
    assert_eq!(iter.lookahead(0), None);
    assert_eq!(iter.lookahead(100), None);
    assert_eq!(iter.next(), None);
    assert_eq!(iter.size_hint(), (0, Some(0)));
}

#[test]
fn empty_source() {
    let mut iter = Lookahead::new(VecSource::new(Vec::<i32>::new()));
    assert_eq!(iter.size_hint(), (0, Some(0)));
    assert_eq!(iter.lookahead(0), None);
    assert_eq!(iter.next(), None);
}

#[test]
fn with_capacity_behaves_like_new() {
    // The capacity is a pure hint: too small a hint must not truncate.
    let mut iter = Lookahead::with_capacity(VecSource::new(vec![1, 2, 3, 4]), 1);
    assert_eq!(iter.lookahead(3), Some(&4));
    assert_eq!(iter.size_hint(), (4, Some(4)));
    assert_eq!(iter.next(), Some(1));
    assert_eq!(iter.next(), Some(2));
    assert_eq!(iter.next(), Some(3));
    assert_eq!(iter.next(), Some(4));
    assert_eq!(iter.next(), None);
}

#[test]
fn scenario_two_items() {
    // source = [1, 2]: the concrete walk-through of the whole interface.
    let mut iter = Lookahead::new(VecSource::new(vec![1, 2]));
    assert_eq!(iter.size_hint(), (2, Some(2)));
    assert_eq!(iter.lookahead(0), Some(&1));
    assert_eq!(iter.lookahead(1), Some(&2));
    assert_eq!(iter.size_hint(), (2, Some(2)));
    assert_eq!(iter.lookahead(2), None);
    assert_eq!(iter.next(), Some(1));
    assert_eq!(iter.lookahead(0), Some(&2));
    assert_eq!(iter.size_hint(), (1, Some(1)));
}

#[test]
fn peek_far_past_end_then_consume() {
    let mut iter = Lookahead::new(VecSource::new(vec![1, 2]));
    assert_eq!(iter.lookahead(10), None);
    assert_eq!(iter.next(), Some(1));
    assert_eq!(iter.next(), Some(2));
    assert_eq!(iter.next(), None);
}
