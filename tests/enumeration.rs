use std::cell::Cell;
use std::rc::Rc;

use foundationr::{FastEnumerator, FatalProtocolViolation, NSFastEnumeration, NSFastEnumerationState};

/// A collection that hands out slices of a vector, counts the fetches it
/// answers, and can be told to report a changed mutation counter.
struct VecCollection {
    items: Vec<&'static str>,
    fetches: Rc<Cell<usize>>,
    mutations: Rc<Cell<i64>>,
}

impl VecCollection {
    fn new(items: Vec<&'static str>) -> (VecCollection, Rc<Cell<usize>>, Rc<Cell<i64>>) {
        let fetches = Rc::new(Cell::new(0));
        let mutations = Rc::new(Cell::new(7));
        (
            VecCollection { items, fetches: fetches.clone(), mutations: mutations.clone() },
            fetches,
            mutations,
        )
    }
}

impl NSFastEnumeration for VecCollection {
    type Element = &'static str;

    fn countByEnumeratingWithStateObjectsCount(
        &mut self,
        state: &mut NSFastEnumerationState,
        objects: &mut Vec<&'static str>,
        count: u64,
    ) -> u64 {
        self.fetches.set(self.fetches.get() + 1);
        let start = (state.state as usize).min(self.items.len());
        let end = (start + count as usize).min(self.items.len());
        objects.clear();
        objects.extend_from_slice(&self.items[start..end]);
        state.state = end as u64;
        state.mutations = self.mutations.get();
        (end - start) as u64
    }
}

fn drain<E: NSFastEnumeration>(e: &mut FastEnumerator<E>) -> Vec<E::Element> {
    let mut out = Vec::new();
    while let Some(item) = e.next().expect("no mutation") {
        out.push(item);
    }
    out
}

fn labels(n: usize) -> Vec<&'static str> {
    const NAMES: [&str; 40] = [
        "a0", "a1", "a2", "a3", "a4", "a5", "a6", "a7", "a8", "a9", "b0", "b1", "b2", "b3", "b4",
        "b5", "b6", "b7", "b8", "b9", "c0", "c1", "c2", "c3", "c4", "c5", "c6", "c7", "c8", "c9",
        "d0", "d1", "d2", "d3", "d4", "d5", "d6", "d7", "d8", "d9",
    ];
    NAMES[..n].to_vec()
}

#[test]
fn four_elements_one_fetch() {
    let (c, fetches, _) = VecCollection::new(vec!["A", "B", "C", "D"]);
    let mut e = FastEnumerator::new(c);
    assert_eq!(e.next(), Ok(Some("A")));
    assert_eq!(fetches.get(), 1);
    assert_eq!(e.next(), Ok(Some("B")));
    assert_eq!(e.next(), Ok(Some("C")));
    assert_eq!(e.next(), Ok(Some("D")));
    assert_eq!(e.next(), Ok(None));
    assert_eq!(fetches.get(), 1);
    assert_eq!(e.next(), Ok(None));
    assert_eq!(fetches.get(), 1);
}

#[test]
fn empty_collection_one_fetch() {
    let (c, fetches, _) = VecCollection::new(vec![]);
    let mut e = FastEnumerator::new(c);
    assert_eq!(e.next(), Ok(None));
    assert_eq!(fetches.get(), 1);
    assert_eq!(e.next(), Ok(None));
    assert_eq!(fetches.get(), 1);
}

#[test]
fn full_window_needs_second_fetch() {
    let items = labels(16);
    let (c, fetches, _) = VecCollection::new(items.clone());
    let mut e = FastEnumerator::new(c);
    let out = drain(&mut e);
    assert_eq!(out.len(), 16);
    assert_eq!(out, items);
    assert_eq!(fetches.get(), 2);
}

#[test]
fn fetch_count_follows_window_capacity() {
    for capacity in 1..=7usize {
        for k in 0..=30usize {
            let items = labels(k);
            let (c, fetches, _) = VecCollection::new(items.clone());
            let mut e = FastEnumerator::with_capacity(c, capacity);
            assert_eq!(drain(&mut e), items);
            assert_eq!(fetches.get(), k / capacity + 1, "k = {k}, capacity = {capacity}");
        }
    }
}

#[test]
fn thirty_three_elements_default_window() {
    let items = labels(33);
    let (c, fetches, _) = VecCollection::new(items.clone());
    let mut e = FastEnumerator::new(c);
    assert_eq!(drain(&mut e), items);
    assert_eq!(fetches.get(), 3);
}

#[test]
fn reenumeration_is_identical() {
    let items = labels(21);
    let (c1, _, _) = VecCollection::new(items.clone());
    let (c2, _, _) = VecCollection::new(items.clone());
    let first = drain(&mut FastEnumerator::new(c1));
    let second = drain(&mut FastEnumerator::with_capacity(c2, 5));
    assert_eq!(first, second);
    assert_eq!(first, items);
}

#[test]
fn mutation_during_enumeration_is_fatal() {
    let (c, fetches, mutations) = VecCollection::new(labels(20));
    let mut e = FastEnumerator::with_capacity(c, 4);
    for expected in labels(4) {
        assert_eq!(e.next(), Ok(Some(expected)));
    }
    mutations.set(8);
    assert_eq!(e.next(), Err(FatalProtocolViolation));
    assert_eq!(fetches.get(), 2);
    assert_eq!(e.next(), Err(FatalProtocolViolation));
    assert_eq!(e.next(), Err(FatalProtocolViolation));
    assert_eq!(fetches.get(), 2);
}

#[test]
fn first_fetch_counter_is_not_compared() {
    let (c, _, mutations) = VecCollection::new(vec!["x", "y"]);
    mutations.set(-3);
    let mut e = FastEnumerator::new(c);
    assert_eq!(drain(&mut e), vec!["x", "y"]);
}

#[test]
fn fresh_protocol_state_is_zeroed() {
    let s = NSFastEnumerationState::new();
    assert_eq!(s.state, 0);
    assert_eq!(s.mutations, 0);
    assert_eq!(s.extra, [0; 5]);
}

/// A collection that is never asked: batches are handed in directly.
struct Unused;

impl NSFastEnumeration for Unused {
    type Element = u32;

    fn countByEnumeratingWithStateObjectsCount(
        &mut self,
        _state: &mut NSFastEnumerationState,
        objects: &mut Vec<u32>,
        _count: u64,
    ) -> u64 {
        objects.clear();
        0
    }
}

#[test]
fn accepted_batch_becomes_window() {
    let mut e = FastEnumerator::with_capacity(Unused, 3);
    assert_eq!(e.accept_batch(vec![10, 20, 30], 5), Ok(Some(10)));
    assert_eq!(e.next(), Ok(Some(20)));
    assert_eq!(e.next(), Ok(Some(30)));
    assert_eq!(e.accept_batch(vec![40], 5), Ok(Some(40)));
    assert_eq!(e.next(), Ok(None));
    assert_eq!(e.next(), Ok(None));
}

#[test]
fn accepted_empty_batch_ends() {
    let mut e = FastEnumerator::with_capacity(Unused, 2);
    assert_eq!(e.accept_batch(vec![], -1), Ok(None));
    assert_eq!(e.next(), Ok(None));
}

#[test]
fn accepted_batch_with_other_counter_fails() {
    let mut e = FastEnumerator::with_capacity(Unused, 2);
    assert_eq!(e.accept_batch(vec![1, 2], 5), Ok(Some(1)));
    assert_eq!(e.next(), Ok(Some(2)));
    assert_eq!(e.accept_batch(vec![3, 4], 6), Err(FatalProtocolViolation));
    assert_eq!(e.next(), Err(FatalProtocolViolation));
}

#[test]
fn first_accepted_batch_records_any_counter() {
    let mut e = FastEnumerator::with_capacity(Unused, 1);
    assert_eq!(e.accept_batch(vec![7], 123), Ok(Some(7)));
    assert_eq!(e.accept_batch(vec![8], 123), Ok(Some(8)));
    assert_eq!(e.accept_batch(vec![9], 124), Err(FatalProtocolViolation));
}

/// A collection of a few numbers that records what each fetch was handed.
struct Recording {
    items: Vec<u32>,
    handed: Rc<std::cell::RefCell<Vec<(u64, u64, i64, [u64; 5])>>>,
}

impl NSFastEnumeration for Recording {
    type Element = u32;

    fn countByEnumeratingWithStateObjectsCount(
        &mut self,
        state: &mut NSFastEnumerationState,
        objects: &mut Vec<u32>,
        count: u64,
    ) -> u64 {
        self.handed.borrow_mut().push((count, state.state, state.mutations, state.extra));
        let start = (state.state as usize).min(self.items.len());
        let end = (start + count as usize).min(self.items.len());
        objects.clear();
        objects.extend_from_slice(&self.items[start..end]);
        state.state = end as u64;
        state.mutations = 1;
        state.extra[0] += 1;
        (end - start) as u64
    }
}

#[test]
fn small_collection_fetched_once_with_window_capacity() {
    let handed = Rc::new(std::cell::RefCell::new(Vec::new()));
    let c = Recording { items: vec![4, 5, 6], handed: handed.clone() };
    let mut e = FastEnumerator::new(c);
    assert!(handed.borrow().is_empty());
    assert_eq!(e.next(), Ok(Some(4)));
    assert_eq!(e.next(), Ok(Some(5)));
    assert_eq!(e.next(), Ok(Some(6)));
    assert_eq!(e.next(), Ok(None));
    assert_eq!(*handed.borrow(), vec![(16, 0, 0, [0; 5])]);
}

#[test]
fn later_fetch_gets_state_left_behind() {
    let handed = Rc::new(std::cell::RefCell::new(Vec::new()));
    let c = Recording { items: vec![1, 2, 3, 4], handed: handed.clone() };
    let mut e = FastEnumerator::with_capacity(c, 2);
    let mut out = Vec::new();
    while let Some(x) = e.next().unwrap() {
        out.push(x);
    }
    assert_eq!(out, vec![1, 2, 3, 4]);
    assert_eq!(
        *handed.borrow(),
        vec![(2, 0, 0, [0; 5]), (2, 2, 1, [1, 0, 0, 0, 0]), (2, 4, 1, [2, 0, 0, 0, 0])]
    );
}

#[test]
fn awaits_batch_follows_window() {
    let mut e = FastEnumerator::with_capacity(Unused, 2);
    assert!(e.awaits_batch());
    assert_eq!(e.accept_batch(vec![1, 2], 0), Ok(Some(1)));
    assert!(!e.awaits_batch());
    assert_eq!(e.next(), Ok(Some(2)));
    assert!(e.awaits_batch());
    assert_eq!(e.accept_batch(vec![3], 0), Ok(Some(3)));
    assert!(!e.awaits_batch());
    assert_eq!(e.next(), Ok(None));
    assert!(!e.awaits_batch());
}
