use std::alloc::System;

use cstl::list::into_iter::{IntoIter, Iter};
use cstl::list::{CxxList, CxxListLayout, Layout};

fn elems<T: Clone, A>(l: &CxxListLayout<T, A>) -> Vec<T> {
    let mut out = Vec::new();
    let mut it: Iter<'_, T> = l.iter();
    while let Some(x) = it.next() {
        out.push(x.clone());
    }
    out
}

fn drain<T, A>(mut it: IntoIter<T, A>) -> Vec<T> {
    let mut out = Vec::new();
    while let Some(x) = it.next() {
        out.push(x);
    }
    out
}

#[test]
fn new_list_is_empty() {
    let l: CxxList<u32> = CxxList::new();
    assert_eq!(l.len(), 0);
    assert!(l.is_empty());
    assert_eq!(l.front(), None);
    assert_eq!(l.back(), None);
    let _layout: Layout<u32, System> = Layout::new_in(System);
}

#[test]
fn max_size_is_the_element_limit() {
    let l: CxxList<u64> = CxxList::new();
    assert_eq!(l.max_size(), (isize::MAX as usize - 1) / 8);
    let z: CxxList<()> = CxxList::new();
    assert_eq!(z.max_size(), isize::MAX as usize);
}

#[test]
fn push_at_both_ends() {
    let mut l: CxxList<i32> = CxxList::new();
    l.push_back(2);
    l.push_front(1);
    l.push_back(3);
    assert_eq!(elems(&l), vec![1, 2, 3]);
    assert_eq!(l.front(), Some(&1));
    assert_eq!(l.back(), Some(&3));
    assert_eq!(l.len(), 3);
}

#[test]
fn pop_front_undoes_push_front() {
    let mut l: CxxList<i32> = CxxList::new();
    l.push_back(5);
    l.push_back(6);
    l.push_front(4);
    l.pop_front();
    assert_eq!(elems(&l), vec![5, 6]);
}

#[test]
fn pop_back_undoes_push_back() {
    let mut l: CxxList<i32> = CxxList::new();
    l.push_back(5);
    l.push_back(6);
    l.pop_back();
    assert_eq!(elems(&l), vec![5]);
    l.pop_back();
    assert!(l.is_empty());
    l.pop_back();
    l.pop_front();
    assert!(l.is_empty());
}

#[test]
fn push_copies_clone_the_value() {
    let mut l: CxxList<String> = CxxList::new();
    let s = "mid".to_string();
    l.push_back_copy(&s);
    l.push_front_copy(&"first".to_string());
    l.push_back_copy(&"last".to_string());
    assert_eq!(elems(&l), vec!["first".to_string(), "mid".to_string(), "last".to_string()]);
    assert_eq!(s, "mid");
}

#[test]
fn front_and_back_mut_write_the_ends() {
    let mut l: CxxList<i32> = CxxList::new();
    assert!(l.front_mut().is_none());
    assert!(l.back_mut().is_none());
    l.push_back(1);
    l.push_back(2);
    l.push_back(3);
    *l.front_mut().unwrap() = 10;
    *l.back_mut().unwrap() = 30;
    assert_eq!(elems(&l), vec![10, 2, 30]);
}

#[test]
fn queue_order() {
    let mut l: CxxList<char> = CxxList::new();
    l.push_back('x');
    l.push_back('y');
    assert_eq!(l.front(), Some(&'x'));
    l.pop_front();
    assert_eq!(l.front(), Some(&'y'));
}

#[test]
fn clear_empties() {
    let mut l: CxxList<u8> = CxxList::new();
    l.push_back(1);
    l.clear();
    assert!(l.is_empty());
}

#[test]
fn assign_replaces_with_copies() {
    let mut l: CxxList<u8> = CxxList::new();
    l.push_back(1);
    l.assign(3, &7);
    assert_eq!(elems(&l), vec![7, 7, 7]);
    l.assign(0, &7);
    assert!(l.is_empty());
}

#[test]
fn assign_past_the_limit_has_no_effect() {
    let mut l: CxxList<u64> = CxxList::new();
    l.push_back(1);
    l.assign(usize::MAX, &0);
    assert_eq!(elems(&l), vec![1]);
}

#[test]
fn swap_exchanges_elements_and_keeps_allocators() {
    let mut a: CxxListLayout<u8, u8> = CxxListLayout::new_in(1u8);
    let mut b: CxxListLayout<u8, u8> = CxxListLayout::new_in(2u8);
    a.push_back(10);
    b.push_back(20);
    b.push_back(21);
    a.swap(&mut b);
    assert_eq!(elems(&a), vec![20, 21]);
    assert_eq!(elems(&b), vec![10]);
    assert_eq!(*a.allocator(), 1);
    assert_eq!(*b.allocator(), 2);
    a.swap(&mut b);
    assert_eq!(elems(&a), vec![10]);
    assert_eq!(elems(&b), vec![20, 21]);
}

#[test]
fn resize_grows_and_shrinks() {
    let mut l: CxxList<i32> = CxxList::new();
    l.push_back(1);
    l.resize(3, 0);
    assert_eq!(elems(&l), vec![1, 0, 0]);
    l.resize(1, 9);
    assert_eq!(elems(&l), vec![1]);
    l.resize(usize::MAX / 2, 9);
    assert_eq!(elems(&l), vec![1]);
}

#[test]
fn resize_with_fills_from_the_closure() {
    let mut l: CxxList<u32> = CxxList::new();
    let mut n = 0u32;
    l.resize_with(3, || {
        n += 1;
        n
    });
    assert_eq!(elems(&l), vec![1, 2, 3]);
    let mut calls = 0;
    l.resize_with(1, || {
        calls += 1;
        0
    });
    assert_eq!(elems(&l), vec![1]);
    assert_eq!(calls, 1);
    l.resize_with(1, || panic!("not called when the length stays"));
    assert_eq!(l.len(), 1);
}

#[test]
fn list_moves_to_another_allocator() {
    let mut l: CxxListLayout<u8, u8> = CxxListLayout::new_in(1u8);
    l.push_back(3);
    l.push_back(4);
    let m: CxxListLayout<u8, u16> = l.into_list_in(9u16);
    assert_eq!(*m.allocator(), 9);
    assert_eq!(elems(&m), vec![3, 4]);
    let n: CxxListLayout<u8, u32> = CxxListLayout::from_list_in(m, 8u32);
    assert_eq!(*n.allocator(), 8);
    assert_eq!(elems(&n), vec![3, 4]);
}

#[test]
fn list_into_iter_hands_out_in_order() {
    let mut l: CxxListLayout<u8, u8> = CxxListLayout::new_in(6u8);
    l.push_back(1);
    l.push_back(2);
    l.push_back(3);
    let mut it = l.into_iter();
    assert_eq!(*it.allocator(), 6);
    assert_eq!(it.size_hint(), (3, Some(3)));
    assert_eq!(it.next(), Some(1));
    assert_eq!(it.size_hint(), (3, Some(3)));
    assert_eq!(drain(it), vec![2, 3]);
}

#[test]
fn iter_borrows_in_order() {
    let mut l: CxxList<u8> = CxxList::new();
    l.push_back(1);
    l.push_back(2);
    let mut it = l.iter();
    assert_eq!(it.next(), Some(&1));
    assert_eq!(it.next(), Some(&2));
    assert_eq!(it.next(), None);
    assert_eq!(it.next(), None);
}

#[test]
fn clone_and_default() {
    let mut l: CxxListLayout<String, u8> = CxxListLayout::new_in(3u8);
    l.push_back("a".to_string());
    let m = l.clone();
    assert_eq!(elems(&m), vec!["a".to_string()]);
    assert_eq!(*m.allocator(), 3);
    let d: CxxListLayout<u8, u8> = Default::default();
    assert!(d.is_empty());
}

#[test]
fn equality_and_order() {
    let mut a: CxxListLayout<u8, System> = CxxListLayout::new_in(System);
    let mut b: CxxListLayout<u8, u8> = CxxListLayout::new_in(0u8);
    for x in [1u8, 2, 3] {
        a.push_back(x);
        b.push_back(x);
    }
    assert!(a == b);
    b.pop_back();
    assert!(a != b);
    assert_eq!(a.partial_cmp(&b), Some(std::cmp::Ordering::Greater));
    b.push_back(4);
    assert_eq!(a.partial_cmp(&b), Some(std::cmp::Ordering::Less));
    assert!(a < b);
    let c = a.clone();
    assert_eq!(a.partial_cmp(&c), Some(std::cmp::Ordering::Equal));
    let as_ref: &CxxListLayout<u8, System> = a.as_ref();
    assert_eq!(as_ref.len(), 3);
}

#[test]
fn pops_do_not_run_the_destructor() {
    let shared = std::rc::Rc::new(5);
    let mut l: CxxList<std::rc::Rc<i32>> = CxxList::new();
    l.push_back(shared.clone());
    l.push_back(shared.clone());
    assert_eq!(std::rc::Rc::strong_count(&shared), 3);
    l.pop_back();
    l.pop_front();
    assert!(l.is_empty());
    assert_eq!(std::rc::Rc::strong_count(&shared), 3);
}

#[test]
fn owning_iterator_is_fused_and_keeps_its_size_hint() {
    let mut l: CxxList<u8> = CxxList::new();
    l.push_back(7);
    l.push_back(8);
    let mut it = l.into_iter();
    assert_eq!(it.next(), Some(7));
    assert_eq!(it.next(), Some(8));
    assert_eq!(it.next(), None);
    assert_eq!(it.next(), None);
    assert_eq!(it.size_hint(), (2, Some(2)));
}

#[test]
fn borrowing_iterator_yields_len_elements() {
    let mut l: CxxList<u8> = CxxList::new();
    for x in 0..5u8 {
        l.push_front(x);
    }
    let mut it = l.iter();
    let mut count = 0;
    while let Some(x) = it.next() {
        assert_eq!(*x, 4 - count as u8);
        count += 1;
    }
    assert_eq!(count, l.len());
}

#[test]
fn list_total_order_is_lexicographic() {
    let mut a: CxxList<u8> = CxxList::new();
    let mut b: CxxList<u8> = CxxList::new();
    a.push_back(1);
    a.push_back(2);
    b.push_back(1);
    assert_eq!(a.cmp(&b), std::cmp::Ordering::Greater);
    assert_eq!(b.cmp(&a), std::cmp::Ordering::Less);
    b.push_back(2);
    assert_eq!(a.cmp(&b), std::cmp::Ordering::Equal);
    b.push_front(0);
    assert_eq!(a.cmp(&b), std::cmp::Ordering::Greater);
}
