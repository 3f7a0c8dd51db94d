use lib::{SharedBytes, SliceBound};
use std::collections::hash_map::DefaultHasher;
use std::hash::{Hash, Hasher};
use std::ops::Bound;
use std::sync::Arc;

#[test]
fn test_from_vec() {
    let bytes: SharedBytes = vec![1, 2, 3, 4, 5].into();
    assert_eq!(bytes.len(), 5);
    assert_eq!(bytes.as_ref(), &[1, 2, 3, 4, 5]);
}

#[test]
fn test_slice_full_range() {
    let bytes: SharedBytes = vec![1, 2, 3, 4, 5].into();
    let sliced = bytes.slice(..);
    assert_eq!(sliced.len(), 5);
    assert_eq!(sliced.as_ref(), &[1, 2, 3, 4, 5]);
}

#[test]
fn test_slice_start() {
    let bytes: SharedBytes = vec![1, 2, 3, 4, 5].into();
    let sliced = bytes.slice(2..);
    assert_eq!(sliced.len(), 3);
    assert_eq!(sliced.as_ref(), &[3, 4, 5]);
}

#[test]
fn test_slice_end() {
    let bytes: SharedBytes = vec![1, 2, 3, 4, 5].into();
    let sliced = bytes.slice(..3);
    assert_eq!(sliced.len(), 3);
    assert_eq!(sliced.as_ref(), &[1, 2, 3]);
}

#[test]
fn test_slice_middle() {
    let bytes: SharedBytes = vec![1, 2, 3, 4, 5].into();
    let sliced = bytes.slice(1..4);
    assert_eq!(sliced.len(), 3);
    assert_eq!(sliced.as_ref(), &[2, 3, 4]);
}

#[test]
fn test_nested_slice() {
    let bytes: SharedBytes = vec![1, 2, 3, 4, 5, 6, 7, 8].into();
    let first = bytes.slice(2..6); // [3, 4, 5, 6]
    let second = first.slice(1..3); // [4, 5]
    assert_eq!(second.len(), 2);
    assert_eq!(second.as_ref(), &[4, 5]);
}

#[test]
fn test_clone_shares_data() {
    let bytes: SharedBytes = vec![1, 2, 3].into();
    let cloned = bytes.clone();

    // Both should point to the same underlying data
    assert_eq!(bytes.as_ref(), cloned.as_ref());
    assert_eq!(Arc::strong_count(bytes.shared_buffer()), 2);
}

#[test]
fn test_slice_shares_data() {
    let bytes: SharedBytes = vec![1, 2, 3, 4, 5].into();
    let slice1 = bytes.slice(0..2);
    let slice2 = bytes.slice(2..5);

    // All three should share the same underlying Arc
    assert_eq!(Arc::strong_count(bytes.shared_buffer()), 3);
    assert_eq!(slice1.as_ref(), &[1, 2]);
    assert_eq!(slice2.as_ref(), &[3, 4, 5]);
}

#[test]
fn test_into_arc_full() {
    let bytes: SharedBytes = vec![1, 2, 3].into();
    let arc = bytes.into_arc();
    assert!(arc.is_some());
    assert_eq!(arc.unwrap().as_ref(), &[1, 2, 3]);
}

#[test]
fn test_into_arc_slice() {
    let bytes: SharedBytes = vec![1, 2, 3, 4, 5].into();
    let sliced = bytes.slice(1..4);
    let arc = sliced.into_arc();
    assert!(arc.is_none()); // Slice doesn't cover full buffer
}

#[test]
fn test_empty() {
    let bytes: SharedBytes = vec![].into();
    assert!(bytes.is_empty());
    assert_eq!(bytes.len(), 0);
}

#[test]
fn test_equality() {
    let a: SharedBytes = vec![1, 2, 3].into();
    let b: SharedBytes = vec![1, 2, 3].into();
    let c: SharedBytes = vec![1, 2, 4].into();

    assert_eq!(a, b);
    assert_ne!(a, c);
}

fn hash_of(bytes: &SharedBytes) -> u64 {
    let mut hasher = DefaultHasher::new();
    bytes.hash(&mut hasher);
    hasher.finish()
}

#[test]
fn slice_with_excluded_start_and_included_end() {
    let bytes: SharedBytes = vec![10, 20, 30, 40, 50].into();
    let sliced = bytes.slice((SliceBound::Excluded(0), SliceBound::Included(2)));
    assert_eq!(sliced.as_ref(), &[20, 30]);
    let to_inclusive = bytes.slice(..=1);
    assert_eq!(to_inclusive.as_ref(), &[10, 20]);
}

#[test]
fn empty_slice_at_the_end() {
    let bytes: SharedBytes = vec![1, 2, 3].into();
    let sliced = bytes.slice(3..);
    assert!(sliced.is_empty());
    assert_eq!(sliced.len(), 0);
    assert!(sliced.into_arc().is_none());
}

#[test]
fn full_slice_still_gives_back_the_buffer() {
    let bytes: SharedBytes = vec![7, 8, 9].into();
    let sliced = bytes.slice(..);
    let arc = sliced.into_arc().expect("covers the whole buffer");
    assert_eq!(&*arc, &[7, 8, 9]);
}

#[test]
fn nested_slice_offsets_add_up() {
    let bytes: SharedBytes = (0u8..20).collect::<Vec<u8>>().into();
    let outer = bytes.slice(5..15);
    let inner = outer.slice(2..=4);
    let direct = bytes.slice(7..10);
    assert_eq!(inner, direct);
    assert_eq!(inner.as_ref(), &[7, 8, 9]);
}

#[test]
fn equality_ignores_where_the_bytes_sit() {
    let a: SharedBytes = vec![9, 1, 2, 9].into();
    let b: SharedBytes = vec![1, 2].into();
    let window = a.slice(1..3);
    assert_eq!(window, b);
    assert_eq!(hash_of(&window), hash_of(&b));
    assert_ne!(a.slice(0..2), b);
    let shorter: SharedBytes = vec![1].into();
    assert_ne!(shorter, b);
}

#[test]
fn conversions_keep_the_bytes() {
    let from_slice: SharedBytes = (&[4u8, 5, 6][..]).into();
    assert_eq!(from_slice.as_ref(), &[4, 5, 6]);
    let from_box: SharedBytes = vec![4u8, 5, 6].into_boxed_slice().into();
    assert_eq!(from_box, from_slice);
    let arc: Arc<[u8]> = vec![4u8, 5, 6].into();
    let from_arc: SharedBytes = arc.clone().into();
    assert_eq!(from_arc, from_slice);
    let new = SharedBytes::new(arc.clone());
    assert!(Arc::ptr_eq(new.shared_buffer(), &arc));
    assert!(Arc::ptr_eq(&new.into_arc().unwrap(), &arc));
}

#[test]
fn deref_and_debug_show_the_window() {
    let bytes: SharedBytes = vec![1, 2, 3, 4].into();
    let sliced = bytes.slice(1..3);
    assert_eq!(&*sliced, &[2, 3]);
    assert_eq!(sliced.as_slice(), &[2, 3]);
    assert_eq!(format!("{:?}", sliced), "SharedBytes { len: 2, start: 1, end: 3 }");
}

#[test]
fn slice_with_std_bound_pair() {
    let bytes: SharedBytes = vec![10, 20, 30, 40, 50].into();
    let sliced = bytes.slice((Bound::Excluded(1), Bound::Unbounded));
    assert_eq!(sliced.as_ref(), &[30, 40, 50]);
    let sliced = bytes.slice((Bound::Unbounded, Bound::Included(0)));
    assert_eq!(sliced.as_ref(), &[10]);
}

#[test]
fn debug_fields_report_the_window() {
    let bytes: SharedBytes = vec![1, 2, 3, 4, 5].into();
    let inner = bytes.slice(1..4).slice(1..);
    assert_eq!(inner.debug_fields(), (2, 2, 4));
    assert_eq!(format!("{:?}", inner), "SharedBytes { len: 2, start: 2, end: 4 }");
}
