use std::cell::RefCell;
use std::rc::Rc;

use dyn_array::{DynArray, MaybeUninit};

struct DropTest<'a>(&'a mut i32);

impl Drop for DropTest<'_> {
    fn drop(&mut self) {
        *self.0 += 1;
    }
}

/// Records its tag in a shared log when dropped.
struct Logged {
    tag: usize,
    log: Rc<RefCell<Vec<usize>>>,
}

impl Drop for Logged {
    fn drop(&mut self) {
        self.log.borrow_mut().push(self.tag);
    }
}

fn logged_array(n: usize, log: &Rc<RefCell<Vec<usize>>>) -> DynArray<Logged> {
    let mut slots: DynArray<MaybeUninit<Logged>> = DynArray::new_uninit(n);
    for i in 0..n {
        slots.write(
            i,
            Logged {
                tag: i,
                log: Rc::clone(log),
            },
        );
    }
    slots.assume_init()
}

/// Reports a count that differs from what it yields.
struct Liar {
    reported: usize,
    left: usize,
    next_value: u32,
}

impl Iterator for Liar {
    type Item = u32;

    fn next(&mut self) -> Option<u32> {
        if self.left == 0 {
            return None;
        }
        self.left -= 1;
        self.next_value += 1;
        Some(self.next_value)
    }

    fn size_hint(&self) -> (usize, Option<usize>) {
        (self.reported, Some(self.reported))
    }
}

impl ExactSizeIterator for Liar {}

/// Claims to be exact-size but gives an inexact size hint.
struct Vague {
    left: u32,
}

impl Iterator for Vague {
    type Item = u32;

    fn next(&mut self) -> Option<u32> {
        if self.left == 0 {
            return None;
        }
        self.left -= 1;
        Some(self.left)
    }
}

impl ExactSizeIterator for Vague {}

#[test]
fn zero_len_test() {
    let a = DynArray::<u8>::new_uninit(0).assume_init();

    assert_eq!(a.len(), 0);

    drop(a);
}

#[test]
fn uninit_test() {
    let mut a: DynArray<MaybeUninit<u32>> = DynArray::new_uninit(20);

    for i in 0..20 {
        a[i].write(i as u32);
    }

    drop(a);
}

#[test]
fn default_test() {
    let a: DynArray<u32> = DynArray::new(20);

    println!("Created");

    let mut iter = a.into_iter();
    while let Some(i) = iter.next() {
        println!("Loop");
        assert_eq!(i, 0);
    }

    println!("Loop done");
}

#[test]
fn test_drop() {
    let mut x = 0;

    let drop_test = DropTest(&mut x);

    drop(drop_test);

    assert_eq!(x, 1);

    let mut drop_array = DynArray::new_uninit(1);

    drop_array[0].write(DropTest(&mut x));

    let drop_array = drop_array.assume_init();

    drop(drop_array);

    assert_eq!(x, 2);
}

#[test]
fn parts_round_trip_keeps_elements() {
    let a = DynArray::from_array([3u64, 1, 4, 1, 5]);
    let (block, len) = a.into_parts();
    assert_eq!(len, 5);
    let b = DynArray::from_parts(block, len);
    assert_eq!(b.len(), 5);
    assert_eq!(b.as_slice(), &[3u64, 1, 4, 1, 5]);
}

#[test]
fn parts_round_trip_drops_nothing() {
    let log = Rc::new(RefCell::new(Vec::new()));
    let a = logged_array(3, &log);
    let (block, len) = a.into_parts();
    let b = DynArray::from_parts(block, len);
    assert!(log.borrow().is_empty());
    drop(b);
    assert_eq!(*log.borrow(), vec![0, 1, 2]);
}

#[test]
fn zero_length_arrays() {
    let a: DynArray<u32> = DynArray::new(0);
    assert_eq!(a.len(), 0);
    assert!(a.is_empty());
    let log = Rc::new(RefCell::new(Vec::new()));
    let b = logged_array(0, &log);
    assert!(b.is_empty());
    drop(b);
    assert!(log.borrow().is_empty());
    let mut it = a.into_iter();
    assert_eq!(it.next(), None);
}

#[test]
fn default_fill_yields_twenty_zeros() {
    let a: DynArray<u32> = DynArray::new(20);
    assert_eq!(a.len(), 20);
    let mut it = a.into_iter();
    let mut seen = Vec::new();
    while let Some(v) = it.next() {
        seen.push(v);
    }
    assert_eq!(seen, vec![0u32; 20]);
}

#[test]
fn default_fill_other_types() {
    let a: DynArray<bool> = DynArray::new(3);
    assert_eq!(a.as_slice(), &[false, false, false]);
    let b: DynArray<String> = DynArray::new(2);
    assert_eq!(b.as_slice(), &[String::new(), String::new()]);
}

#[test]
fn exact_producer_success_keeps_order() {
    let src = vec![10u32, 20, 30, 40, 50];
    let a = DynArray::from_iter(src.into_iter()).unwrap();
    assert_eq!(a.len(), 5);
    assert_eq!(a.as_slice(), &[10u32, 20, 30, 40, 50]);
}

#[test]
fn exact_producer_short_fails() {
    let liar = Liar {
        reported: 5,
        left: 4,
        next_value: 0,
    };
    assert!(DynArray::from_iter(liar).is_none());
}

#[test]
fn exact_producer_long_fails() {
    let liar = Liar {
        reported: 5,
        left: 6,
        next_value: 0,
    };
    assert!(DynArray::from_iter(liar).is_none());
}

#[test]
fn honest_liar_type_succeeds() {
    let honest = Liar {
        reported: 3,
        left: 3,
        next_value: 0,
    };
    let a = DynArray::from_iter(honest).unwrap();
    assert_eq!(a.as_slice(), &[1u32, 2, 3]);
}

#[test]
fn counted_iter_exact_count() {
    let a = DynArray::from_counted_iter(3, vec![7u8, 8, 9].into_iter()).unwrap();
    assert_eq!(a.as_slice(), &[7u8, 8, 9]);
    assert!(DynArray::from_counted_iter(2, vec![7u8, 8, 9].into_iter()).is_none());
    assert!(DynArray::from_counted_iter(4, vec![7u8, 8, 9].into_iter()).is_none());
    let empty = DynArray::from_counted_iter(0, Vec::<u8>::new().into_iter()).unwrap();
    assert!(empty.is_empty());
}

#[test]
fn drop_destroys_each_element_once_in_order() {
    let log = Rc::new(RefCell::new(Vec::new()));
    let a = logged_array(6, &log);
    assert!(log.borrow().is_empty());
    drop(a);
    assert_eq!(*log.borrow(), vec![0, 1, 2, 3, 4, 5]);
}

#[test]
fn iterator_yields_all_in_order() {
    let a = DynArray::from_array([5i32, -1, 7, 0]);
    let mut it = a.into_iter();
    let mut seen = Vec::new();
    while let Some(v) = it.next() {
        seen.push(v);
    }
    assert_eq!(seen, vec![5, -1, 7, 0]);
    assert_eq!(it.next(), None);
    assert_eq!(it.next(), None);
}

#[test]
fn iterator_hands_destruction_to_caller() {
    let log = Rc::new(RefCell::new(Vec::new()));
    let a = logged_array(4, &log);
    let mut it = a.into_iter();
    let mut count = 0;
    while let Some(item) = it.next() {
        assert_eq!(log.borrow().len(), count);
        assert_eq!(item.tag, count);
        drop(item);
        count += 1;
    }
    assert_eq!(count, 4);
    assert_eq!(*log.borrow(), vec![0, 1, 2, 3]);
    drop(it);
    assert_eq!(log.borrow().len(), 4);
}

#[test]
fn clone_is_independent() {
    let mut a = DynArray::from_array([1u32, 2, 3]);
    let c = a.clone();
    a[1] = 99;
    assert_eq!(a.as_slice(), &[1u32, 99, 3]);
    assert_eq!(c.as_slice(), &[1u32, 2, 3]);
}

#[test]
fn from_slice_clones_each_element() {
    let src = vec![String::from("a"), String::from("bc")];
    let a = DynArray::from_slice(&src);
    assert_eq!(a.as_slice(), src.as_slice());
}

#[test]
fn from_impls() {
    let s: &[u16] = &[1, 2, 3];
    let a = DynArray::from(s);
    assert_eq!(a.as_slice(), &[1u16, 2, 3]);

    let mut m = [4u16, 5];
    let b = DynArray::from(&mut m[..]);
    assert_eq!(b.as_slice(), &[4u16, 5]);

    let c = DynArray::from([6u16, 7, 8, 9]);
    assert_eq!(c.len(), 4);
    assert_eq!(c.as_slice(), &[6u16, 7, 8, 9]);

    let boxed: Box<[u16]> = vec![10u16, 11].into_boxed_slice();
    let d = DynArray::from(boxed);
    assert_eq!(d.as_slice(), &[10u16, 11]);
}

#[test]
fn boxed_slice_is_taken_without_copy() {
    let log = Rc::new(RefCell::new(Vec::new()));
    let items: Vec<Logged> = (0..3)
        .map(|i| Logged {
            tag: i,
            log: Rc::clone(&log),
        })
        .collect();
    let a = DynArray::from_boxed_slice(items.into_boxed_slice());
    assert_eq!(a.len(), 3);
    assert!(log.borrow().is_empty());
    drop(a);
    assert_eq!(*log.borrow(), vec![0, 1, 2]);
}

#[test]
fn default_is_empty() {
    let a: DynArray<u64> = DynArray::default();
    assert_eq!(a.len(), 0);
    assert!(a.is_empty());
}

#[test]
fn mutable_view_writes_through() {
    let mut a = DynArray::from_array([0u8; 4]);
    a.as_mut_slice()[2] = 5;
    a[3] = 6;
    assert_eq!(a.as_slice(), &[0u8, 0, 5, 6]);
    assert_eq!(&a[..], &[0u8, 0, 5, 6]);
}

#[test]
fn slots_track_writes() {
    let mut slot: MaybeUninit<u8> = MaybeUninit::uninit();
    assert!(!slot.is_init());
    slot.write(3);
    assert!(slot.is_init());
    assert!(MaybeUninit::new(1u8).is_init());

    let mut slots: DynArray<MaybeUninit<char>> = DynArray::new_uninit(3);
    assert!(slots.iter().all(|s| !s.is_init()));
    slots.write(2, 'c');
    slots.write(0, 'a');
    slots.write(1, 'b');
    let a = slots.assume_init();
    assert_eq!(a.as_slice(), &['a', 'b', 'c']);
}

#[test]
fn abandoned_iterator_drops_the_rest() {
    let log = Rc::new(RefCell::new(Vec::new()));
    let a = logged_array(5, &log);
    let mut it = a.into_iter();
    let first = it.next().unwrap();
    let second = it.next().unwrap();
    assert!(log.borrow().is_empty());
    drop(it);
    let mut dropped = log.borrow().clone();
    dropped.sort();
    assert_eq!(dropped, vec![2, 3, 4]);
    assert_eq!((first.tag, second.tag), (0, 1));
    drop(second);
    drop(first);
    assert_eq!(log.borrow().len(), 5);
}

#[test]
fn exact_producer_with_inexact_hint_fails() {
    assert!(DynArray::from_iter(Vague { left: 3 }).is_none());
}

#[test]
fn debug_shows_the_block() {
    let a = DynArray::from([1u8, 2]);
    assert!(format!("{:?}", a).contains("[1, 2]"));
}
