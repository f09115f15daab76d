use std::alloc::System;
use std::borrow::{Borrow, BorrowMut};

use cstl::vec::into_iter::IntoIter;
use cstl::vec::{CxxVec, CxxVecLayout, Layout};

fn collect<T, A>(mut it: IntoIter<T, A>) -> Vec<T> {
    let mut out = Vec::new();
    while let Some(x) = it.next() {
        out.push(x);
    }
    out
}

#[test]
fn new_vector_is_empty() {
    let v: CxxVec<u32> = CxxVec::new();
    assert_eq!(v.len(), 0);
    assert!(v.is_empty());
    assert_eq!(v.capacity(), 0);
    assert_eq!(v.as_slice(), &[] as &[u32]);
}

#[test]
fn layout_new_in_builds_an_empty_storage() {
    let _layout: Layout<u8, System> = Layout::new_in(System);
    let v: CxxVecLayout<u8, u8> = CxxVecLayout::new_in(7u8);
    assert_eq!(*v.allocator(), 7);
    assert!(v.is_empty());
}

#[test]
fn push_appends_and_grows_capacity() {
    let mut v: CxxVec<i32> = CxxVec::new();
    v.push(1);
    assert_eq!(v.capacity(), 1);
    v.push(2);
    assert_eq!(v.capacity(), 2);
    v.push(3);
    assert_eq!(v.as_slice(), &[1, 2, 3]);
    assert_eq!(v.len(), 3);
    assert_eq!(v.capacity(), 4);
}

#[test]
fn pop_undoes_push() {
    let mut v: CxxVec<i32> = CxxVec::new();
    v.push(10);
    v.push(20);
    v.push(30);
    assert_eq!(v.pop(), Some(30));
    assert_eq!(v.as_slice(), &[10, 20]);
    assert_eq!(v.capacity(), 4);
    assert_eq!(v.pop(), Some(20));
    assert_eq!(v.pop(), Some(10));
    assert_eq!(v.pop(), None);
    assert!(v.is_empty());
}

#[test]
fn insert_then_remove_restores() {
    let mut v: CxxVec<char> = CxxVec::new();
    v.push('a');
    v.push('c');
    v.insert(1, 'b');
    assert_eq!(v.as_slice(), &['a', 'b', 'c']);
    v.insert(3, 'd');
    v.insert(0, 'z');
    assert_eq!(v.as_slice(), &['z', 'a', 'b', 'c', 'd']);
    assert_eq!(v.remove(0), 'z');
    assert_eq!(v.remove(3), 'd');
    assert_eq!(v.remove(1), 'b');
    assert_eq!(v.as_slice(), &['a', 'c']);
}

#[test]
fn clear_keeps_capacity() {
    let mut v: CxxVec<u8> = CxxVec::new();
    v.push(1);
    v.push(2);
    let cap = v.capacity();
    v.clear();
    assert!(v.is_empty());
    assert_eq!(v.capacity(), cap);
}

#[test]
fn truncate_keeps_prefix() {
    let mut v: CxxVec<u8> = CxxVec::new();
    for x in 0..5u8 {
        v.push(x);
    }
    v.truncate(10);
    assert_eq!(v.len(), 5);
    v.truncate(3);
    assert_eq!(v.as_slice(), &[0, 1, 2]);
    v.truncate(3);
    assert_eq!(v.as_slice(), &[0, 1, 2]);
    v.truncate(0);
    assert!(v.is_empty());
    assert_eq!(v.capacity(), 8);
}

#[test]
fn reserve_adds_to_capacity() {
    let mut v: CxxVec<u64> = CxxVec::new();
    v.reserve(4);
    assert_eq!(v.capacity(), 4);
    v.push(1);
    v.reserve(2);
    assert_eq!(v.capacity(), 6);
    v.reserve(0);
    assert_eq!(v.capacity(), 6);
    assert_eq!(v.as_slice(), &[1]);
}

#[test]
fn reserve_past_the_limit_has_no_effect() {
    let mut v: CxxVec<u64> = CxxVec::new();
    v.reserve(3);
    v.reserve(usize::MAX / 4);
    assert_eq!(v.capacity(), 3);
}

#[test]
fn shrink_to_fit_releases_capacity() {
    let mut v: CxxVec<u16> = CxxVec::new();
    v.reserve(10);
    v.push(5);
    v.shrink_to_fit();
    assert_eq!(v.capacity(), 1);
    assert_eq!(v.as_slice(), &[5]);
}

#[test]
fn resize_grows_with_clones_and_shrinks() {
    let mut v: CxxVec<String> = CxxVec::new();
    v.push("a".to_string());
    v.resize(3, "x".to_string());
    assert_eq!(v.as_slice(), &["a".to_string(), "x".to_string(), "x".to_string()]);
    assert_eq!(v.capacity(), 3);
    v.resize(1, "y".to_string());
    assert_eq!(v.as_slice(), &["a".to_string()]);
    assert_eq!(v.capacity(), 3);
}

#[test]
fn resize_past_the_limit_has_no_effect() {
    let mut v: CxxVec<u64> = CxxVec::new();
    v.push(1);
    v.resize(usize::MAX / 4, 0);
    assert_eq!(v.as_slice(), &[1]);
}

#[test]
fn resize_with_calls_the_closure_for_new_elements() {
    let mut v: CxxVec<u32> = CxxVec::new();
    v.push(100);
    let mut next = 0u32;
    v.resize_with(4, || {
        next += 1;
        next
    });
    assert_eq!(v.as_slice(), &[100, 1, 2, 3]);
    assert_eq!(v.capacity(), 4);
    v.resize_with(2, || 9);
    assert_eq!(v.as_slice(), &[100, 1]);
}

#[test]
fn from_slice_in_clones_and_reserves_exactly() {
    let v: CxxVecLayout<i64, System> = CxxVecLayout::from_slice_in(&[3, 1, 4, 1, 5], System);
    assert_eq!(v.as_slice(), &[3, 1, 4, 1, 5]);
    assert_eq!(v.capacity(), 5);
    let e: CxxVecLayout<i64, System> = CxxVecLayout::from_slice_in(&[], System);
    assert!(e.is_empty());
}

#[test]
fn rust_vec_round_trip() {
    let v: CxxVecLayout<u8, System> = CxxVecLayout::from_rust_vec_in(vec![9, 8, 7], System);
    assert_eq!(v.capacity(), 3);
    assert_eq!(v.into_rust_vec(), vec![9, 8, 7]);
}

#[test]
fn vec_moves_to_another_allocator() {
    let mut v: CxxVecLayout<u8, u8> = CxxVecLayout::new_in(1u8);
    v.push(4);
    v.push(2);
    let w: CxxVecLayout<u8, u16> = v.into_vec_in(2u16);
    assert_eq!(*w.allocator(), 2u16);
    assert_eq!(w.as_slice(), &[4, 2]);
    let x: CxxVecLayout<u8, u32> = CxxVecLayout::from_vec_in(w, 3u32);
    assert_eq!(*x.allocator(), 3u32);
    assert_eq!(x.as_slice(), &[4, 2]);
}

#[test]
fn as_mut_slice_writes_land_in_the_vector() {
    let mut v: CxxVec<i32> = CxxVec::new();
    v.push(1);
    v.push(2);
    v.as_mut_slice()[1] = 7;
    assert_eq!(v.as_slice(), &[1, 7]);
    v[0] = 5;
    assert_eq!(&v[..], &[5, 7]);
    let s: &mut [i32] = v.as_mut();
    s[0] = 6;
    let r: &[i32] = v.as_ref();
    assert_eq!(r, &[6, 7]);
}

#[test]
fn vec_into_iter_hands_out_in_order() {
    let mut v: CxxVecLayout<u8, u8> = CxxVecLayout::new_in(5u8);
    v.push(1);
    v.push(2);
    v.push(3);
    let mut it = v.into_iter();
    assert_eq!(*it.allocator(), 5);
    assert_eq!(it.size_hint(), (3, Some(3)));
    assert_eq!(it.next(), Some(1));
    assert_eq!(it.size_hint(), (2, Some(2)));
    assert_eq!(collect(it), vec![2, 3]);
}

#[test]
fn clone_copies_elements_and_allocator() {
    let mut v: CxxVecLayout<String, u8> = CxxVecLayout::new_in(4u8);
    v.reserve(10);
    v.push("p".to_string());
    v.push("q".to_string());
    let w = v.clone();
    assert_eq!(w.as_slice(), v.as_slice());
    assert_eq!(*w.allocator(), 4);
    assert_eq!(w.capacity(), 2);
}

#[test]
fn default_is_empty() {
    let v: CxxVecLayout<u8, u8> = Default::default();
    assert!(v.is_empty());
    assert_eq!(*v.allocator(), 0);
}

#[test]
fn equality_is_element_wise_across_allocators() {
    let a: CxxVecLayout<u8, System> = CxxVecLayout::from_slice_in(&[1, 2, 3], System);
    let b: CxxVecLayout<u8, u8> = CxxVecLayout::from_slice_in(&[1, 2, 3], 0u8);
    let c: CxxVecLayout<u8, u8> = CxxVecLayout::from_slice_in(&[1, 2], 0u8);
    let d: CxxVecLayout<u8, u8> = CxxVecLayout::from_slice_in(&[1, 2, 4], 0u8);
    assert!(a == b);
    assert!(a != c);
    assert!(a != d);
}

#[test]
fn order_is_lexicographic() {
    let a: CxxVecLayout<u8, u8> = CxxVecLayout::from_slice_in(&[1, 2, 3], 0u8);
    let b: CxxVecLayout<u8, u8> = CxxVecLayout::from_slice_in(&[1, 2], 0u8);
    let c: CxxVecLayout<u8, u8> = CxxVecLayout::from_slice_in(&[1, 3], 0u8);
    assert_eq!(a.partial_cmp(&b), Some(std::cmp::Ordering::Greater));
    assert_eq!(b.partial_cmp(&a), Some(std::cmp::Ordering::Less));
    assert_eq!(a.partial_cmp(&c), Some(std::cmp::Ordering::Less));
    assert_eq!(a.partial_cmp(&a.clone()), Some(std::cmp::Ordering::Equal));
    assert!(b < a);
    assert!(c > a);
}

#[test]
fn unordered_elements_make_vectors_unordered() {
    let a: CxxVecLayout<f64, u8> = CxxVecLayout::from_slice_in(&[1.0, f64::NAN], 0u8);
    let b: CxxVecLayout<f64, u8> = CxxVecLayout::from_slice_in(&[1.0, 2.0], 0u8);
    assert_eq!(a.partial_cmp(&b), None);
    let c: CxxVecLayout<f64, u8> = CxxVecLayout::from_slice_in(&[0.5, f64::NAN], 0u8);
    assert_eq!(c.partial_cmp(&b), Some(std::cmp::Ordering::Less));
}

#[test]
fn push_within_reserved_capacity_keeps_capacity() {
    let mut v: CxxVec<u32> = CxxVec::new();
    v.reserve(3);
    v.push(1);
    v.push(2);
    v.push(3);
    assert_eq!(v.capacity(), 3);
    v.push(4);
    assert_eq!(v.capacity(), 6);
}

#[test]
fn equality_is_symmetric_and_agrees_with_order() {
    let a: CxxVecLayout<i32, u8> = CxxVecLayout::from_slice_in(&[4, 5], 0u8);
    let b: CxxVecLayout<i32, u16> = CxxVecLayout::from_slice_in(&[4, 5], 1u16);
    let c: CxxVecLayout<i32, u16> = CxxVecLayout::from_slice_in(&[4, 6], 1u16);
    assert!(a == b && b == a);
    assert_eq!(a.partial_cmp(&b), Some(std::cmp::Ordering::Equal));
    assert!(a != c && c != a);
    assert_ne!(a.partial_cmp(&c), Some(std::cmp::Ordering::Equal));
}

#[test]
fn resize_past_capacity_grows_geometrically() {
    let mut v: CxxVec<u8> = CxxVec::new();
    v.reserve(4);
    v.push(1);
    v.resize(6, 0);
    assert_eq!(v.capacity(), 8);
    v.resize(20, 0);
    assert_eq!(v.capacity(), 20);
    assert_eq!(v.len(), 20);
}

#[test]
fn resize_and_reserve_refuse_to_reach_the_limit() {
    let mut v: CxxVec<u64> = CxxVec::new();
    let limit = (isize::MAX as usize - 1) / 8;
    v.reserve(limit);
    assert_eq!(v.capacity(), 0);
    v.resize(limit, 0);
    assert!(v.is_empty());
}

#[test]
fn total_order_is_lexicographic() {
    let a: CxxVecLayout<u8, u8> = CxxVecLayout::from_slice_in(&[1, 2, 3], 0u8);
    let b: CxxVecLayout<u8, u8> = CxxVecLayout::from_slice_in(&[1, 2], 0u8);
    let c: CxxVecLayout<u8, u8> = CxxVecLayout::from_slice_in(&[1, 3], 0u8);
    assert_eq!(a.cmp(&b), std::cmp::Ordering::Greater);
    assert_eq!(b.cmp(&a), std::cmp::Ordering::Less);
    assert_eq!(a.cmp(&c), std::cmp::Ordering::Less);
    assert_eq!(a.cmp(&a.clone()), std::cmp::Ordering::Equal);
}

#[test]
fn borrow_gives_the_elements() {
    let mut v: CxxVec<i32> = CxxVec::new();
    v.push(1);
    v.push(2);
    let s: &mut [i32] = v.borrow_mut();
    s[1] = 9;
    let r: &[i32] = v.borrow();
    assert_eq!(r, &[1, 9]);
}

#[test]
fn mutable_views_keep_capacity_and_allocator() {
    let mut v: CxxVecLayout<i32, u8> = CxxVecLayout::new_in(3u8);
    v.reserve(5);
    v.push(1);
    {
        let s: &mut [i32] = v.as_mut();
        s[0] = 2;
    }
    v[0] += 1;
    {
        let s: &mut [i32] = v.borrow_mut();
        s[0] += 1;
    }
    assert_eq!(v.as_slice(), &[4]);
    assert_eq!(v.capacity(), 5);
    assert_eq!(*v.allocator(), 3);
}
