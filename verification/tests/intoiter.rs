use std::cell::Cell;
use std::rc::Rc;

use growvec::Vector;

struct Foo {
    value: Box<i32>,
}

impl Foo {
    pub fn new(value: i32) -> Self {
        Self { value: Box::new(value) }
    }
}

impl Drop for Foo {
    fn drop(&mut self) {}
}

#[test]
fn into_iter_test() {
    let mut vector = Vector::new();

    for i in 0..=100 {
        vector.push(Foo::new(i));
    }

    let mut resulting = Vec::new();
    let mut iter = vector.into_iter();
    while let Some(element) = iter.next() {
        resulting.push(element);
    }
    iter.drop();

    let sum = resulting.into_iter().map(|x| *x.value).sum::<i32>();

    assert_eq!(sum, 5050)
}

struct CountedFoo {
    value: Box<i32>,
    counter: Rc<Cell<usize>>,
}

impl CountedFoo {
    pub fn new(value: i32, counter: Rc<Cell<usize>>) -> Self {
        Self { value: Box::new(value), counter }
    }
}

impl Drop for CountedFoo {
    fn drop(&mut self) {
        self.counter.set(self.counter.get() + 1);
    }
}

#[test]
fn into_iter_drops_everything() {
    let counter: Rc<Cell<usize>> = Rc::new(Cell::new(0));

    let mut vector = Vector::new();

    for i in 0..=100 {
        vector.push(CountedFoo::new(i, Rc::clone(&counter)));
    }

    let mut resulting = Vec::new();
    let mut iter = vector.into_iter();
    while let Some(element) = iter.next() {
        resulting.push(element);
    }
    iter.drop();

    let sum = resulting.into_iter().map(|x| *x.value).sum::<i32>();
    assert_eq!(sum, 5050);
    assert_eq!(counter.get(), 101);
}

struct CountedUnit {
    counter: Rc<Cell<usize>>,
}

impl CountedUnit {
    pub fn new(counter: Rc<Cell<usize>>) -> Self {
        Self { counter }
    }
}

impl Drop for CountedUnit {
    fn drop(&mut self) {
        self.counter.set(self.counter.get() + 1);
    }
}

#[test]
fn into_iter_drops_everything_partial_usage() {
    let counter: Rc<Cell<usize>> = Rc::new(Cell::new(0));

    let mut vector = Vector::new();

    for _ in 0..=100 {
        vector.push(CountedUnit::new(Rc::clone(&counter)));
    }

    let mut iter = vector.into_iter();

    iter.next();
    iter.next();

    iter.drop();

    assert_eq!(counter.get(), 101);
}

#[test]
fn drains_forward_in_original_order() {
    let mut vector = Vector::new();
    for i in 0..10 {
        vector.push(i);
    }

    let mut iter = vector.into_iter();
    let mut seen = Vec::new();
    while let Some(element) = iter.next() {
        seen.push(element);
    }
    iter.drop();

    assert_eq!(seen, vec![0, 1, 2, 3, 4, 5, 6, 7, 8, 9]);
}

#[test]
fn drains_backward_in_reverse_order() {
    let mut vector = Vector::new();
    for i in 0..10 {
        vector.push(i);
    }

    let mut iter = vector.into_iter();
    let mut seen = Vec::new();
    while let Some(element) = iter.next_back() {
        seen.push(element);
    }
    iter.drop();

    assert_eq!(seen, vec![9, 8, 7, 6, 5, 4, 3, 2, 1, 0]);
}

#[test]
fn interleaved_draws_yield_each_element_once() {
    let mut vector = Vector::new();
    for i in 0..6 {
        vector.push(i);
    }

    let mut iter = vector.into_iter();
    assert_eq!(iter.next(), Some(0));
    assert_eq!(iter.next_back(), Some(5));
    assert_eq!(iter.next(), Some(1));
    assert_eq!(iter.next_back(), Some(4));
    assert_eq!(iter.next(), Some(2));
    assert_eq!(iter.next_back(), Some(3));
    assert_eq!(iter.next(), None);
    assert_eq!(iter.next_back(), None);
    iter.drop();
}

#[test]
fn size_hint_is_exact_and_counts_down() {
    let mut vector = Vector::new();
    for i in 0..8 {
        vector.push(i);
    }

    let mut iter = vector.into_iter();
    assert_eq!(iter.size_hint(), (8, Some(8)));

    iter.next();
    assert_eq!(iter.size_hint(), (7, Some(7)));
    iter.next_back();
    assert_eq!(iter.size_hint(), (6, Some(6)));

    let mut drawn = 2;
    while let Some(_) = iter.next() {
        drawn += 1;
        let (low, high) = iter.size_hint();
        assert_eq!(low, 8 - drawn);
        assert_eq!(high, Some(low));
    }
    assert_eq!(iter.size_hint(), (0, Some(0)));
    iter.drop();
}

#[test]
fn drop_after_back_draws_destroys_each_element_once() {
    let counter: Rc<Cell<usize>> = Rc::new(Cell::new(0));

    let mut vector = Vector::new();
    for _ in 0..10 {
        vector.push(CountedUnit::new(Rc::clone(&counter)));
    }

    let mut iter = vector.into_iter();
    iter.next_back();
    iter.next_back();
    iter.next_back();
    assert_eq!(counter.get(), 3);

    iter.drop();
    assert_eq!(counter.get(), 10);
}

#[test]
fn empty_vector_drains_nothing() {
    let vector: Vector<i32, growvec::Global> = Vector::new();
    let mut iter = vector.into_iter();
    assert_eq!(iter.size_hint(), (0, Some(0)));
    assert_eq!(iter.next(), None);
    assert_eq!(iter.next_back(), None);
    iter.drop();
}

struct ZeroWidth;

#[test]
fn zero_width_elements_drain_one_step_at_a_time() {
    let mut vector = Vector::new();
    for _ in 0..100 {
        vector.push(ZeroWidth);
    }

    let mut iter = vector.into_iter();
    let mut steps = 0;
    loop {
        let (low, high) = iter.size_hint();
        assert_eq!(low, 100 - steps);
        assert_eq!(high, Some(low));
        match iter.next() {
            Some(ZeroWidth) => steps += 1,
            None => break,
        }
    }
    assert_eq!(steps, 100);
    iter.drop();
}

struct TattleAllocator {
    released: Rc<Cell<usize>>,
}

impl growvec::Allocator for TattleAllocator {
    fn release_raw<T>(&self, _storage: growvec::RawVector<T>) {
        self.released.set(self.released.get() + 1);
    }
}

#[test]
fn teardown_releases_storage_exactly_once_after_cleanup() {
    let released: Rc<Cell<usize>> = Rc::new(Cell::new(0));
    let destroyed: Rc<Cell<usize>> = Rc::new(Cell::new(0));

    let mut vector = Vector::new_in(TattleAllocator { released: Rc::clone(&released) });
    for _ in 0..5 {
        vector.push(CountedUnit::new(Rc::clone(&destroyed)));
    }

    let mut iter = vector.into_iter();
    iter.next();
    assert_eq!(released.get(), 0);

    iter.drop();
    assert_eq!(destroyed.get(), 5);
    assert_eq!(released.get(), 1);
}

#[test]
fn new_in_uses_the_given_allocator() {
    let mut vector = Vector::new_in(growvec::Global);
    vector.push(1u64);
    vector.push(2u64);
    assert_eq!(vector.len(), 2);

    let mut iter = vector.into_iter();
    assert_eq!(iter.next(), Some(1));
    assert_eq!(iter.next(), Some(2));
    assert_eq!(iter.next(), None);
    iter.drop();
}
