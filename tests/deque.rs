use pyvm::cursor::{DequeIterator, ReverseDequeIterator};
use pyvm::deque::{CompareOp, Deque, DequeError};

fn filled(items: &[i64], maxlen: Option<isize>) -> Deque {
    let mut d = Deque::new(None);
    d.init(Some(items.to_vec()), maxlen).unwrap();
    d
}

#[test]
fn push_back_past_capacity_keeps_newest() {
    let mut d = Deque::new(Some(3));
    for x in [1, 2, 3, 4] {
        d.append(x);
        assert!(d.len() <= 3);
    }
    assert_eq!(d.to_vec(), vec![2, 3, 4]);
}

#[test]
fn push_front_past_capacity_keeps_newest() {
    let mut d = Deque::new(Some(3));
    for x in [1, 2, 3, 4] {
        d.appendleft(x);
        assert!(d.len() <= 3);
    }
    assert_eq!(d.to_vec(), vec![4, 3, 2]);
}

#[test]
fn bulk_append_into_small_capacity() {
    let mut d = Deque::new(Some(2));
    d.extend(vec![1, 2, 3, 4, 5]);
    assert_eq!(d.to_vec(), vec![4, 5]);
}

#[test]
fn bulk_append_trims_existing_front() {
    let mut d = filled(&[1, 2, 3], Some(4));
    let g = d.generation();
    d.extend(vec![7, 8]);
    assert_eq!(d.to_vec(), vec![2, 3, 7, 8]);
    assert_ne!(d.generation(), g);
}

#[test]
fn bulk_prepend_reverses_and_trims_tail() {
    let mut d = filled(&[1, 2], Some(3));
    let g = d.generation();
    d.extendleft(vec![3, 4, 5]);
    assert_eq!(d.to_vec(), vec![5, 4, 3]);
    assert_eq!(d.generation(), g);
    let mut e = filled(&[1, 2, 3], Some(4));
    e.extendleft(vec![9]);
    assert_eq!(e.to_vec(), vec![9, 1, 2, 3]);
}

#[test]
fn pop_front_on_empty_fails_and_keeps_state() {
    let mut d = Deque::new(None);
    let g = d.generation();
    assert_eq!(d.popleft(), Err(DequeError::EmptyContainer));
    assert_eq!(d.pop(), Err(DequeError::EmptyContainer));
    assert_eq!(d.len(), 0);
    assert_eq!(d.generation(), g);
}

#[test]
fn pops_take_from_each_end() {
    let mut d = filled(&[1, 2, 3], None);
    assert_eq!(d.pop(), Ok(3));
    assert_eq!(d.popleft(), Ok(1));
    assert_eq!(d.to_vec(), vec![2]);
}

#[test]
fn insert_past_end_is_clamped() {
    let mut d = filled(&[1, 2, 3], None);
    d.insert(10, 9).unwrap();
    assert_eq!(d.to_vec(), vec![1, 2, 3, 9]);
    assert_eq!(d.get(3), Ok(9));
    d.insert(-10, 0).unwrap();
    assert_eq!(d.to_vec(), vec![0, 1, 2, 3, 9]);
    d.insert(-1, 5).unwrap();
    assert_eq!(d.to_vec(), vec![0, 1, 2, 3, 5, 9]);
}

#[test]
fn insert_at_capacity_is_refused() {
    let mut d = filled(&[1, 2], Some(2));
    let g = d.generation();
    assert_eq!(d.insert(0, 5), Err(DequeError::Full));
    assert_eq!(d.to_vec(), vec![1, 2]);
    assert_eq!(d.generation(), g);
}

#[test]
fn rotate_both_directions() {
    let mut d = filled(&[1, 2, 3], None);
    d.rotate(-1);
    assert_eq!(d.to_vec(), vec![2, 3, 1]);
    let mut e = filled(&[1, 2, 3], None);
    e.rotate(1);
    assert_eq!(e.to_vec(), vec![3, 1, 2]);
    let mut f = filled(&[1, 2, 3], None);
    f.rotate(7);
    assert_eq!(f.to_vec(), vec![3, 1, 2]);
    let mut g = filled(&[1, 2, 3], None);
    g.rotate(isize::MIN);
    assert_eq!(g.len(), 3);
}

#[test]
fn negative_index_reads_from_back() {
    let d = filled(&[10, 20, 30], None);
    assert_eq!(d.get(-1), d.get(2));
    assert_eq!(d.get(-1), Ok(30));
    for i in 0..3isize {
        assert_eq!(d.get(i), d.get(i - 3));
    }
    assert_eq!(d.get(3), Err(DequeError::OutOfRange));
    assert_eq!(d.get(-4), Err(DequeError::OutOfRange));
    assert_eq!(d.get(isize::MIN), Err(DequeError::OutOfRange));
}

#[test]
fn set_and_delete_keep_generation() {
    let mut d = filled(&[1, 2, 3], None);
    let g = d.generation();
    d.set(-1, 7).unwrap();
    d.delete(0).unwrap();
    assert_eq!(d.to_vec(), vec![2, 7]);
    assert_eq!(d.generation(), g);
    assert_eq!(d.set(5, 1), Err(DequeError::OutOfRange));
    assert_eq!(d.delete(-3), Err(DequeError::OutOfRange));
}

#[test]
fn zero_capacity_stays_empty() {
    let mut d = Deque::new(Some(0));
    d.append(1);
    d.appendleft(2);
    d.extend(vec![3, 4]);
    assert_eq!(d.len(), 0);
    assert_eq!(d.insert(0, 1), Err(DequeError::Full));
}

#[test]
fn negative_capacity_is_refused() {
    let mut d = filled(&[1], None);
    assert_eq!(d.init(Some(vec![1, 2]), Some(-1)), Err(DequeError::TypeMismatch));
    assert_eq!(d.to_vec(), vec![1]);
    assert_eq!(d.maxlen(), None);
}

#[test]
fn init_keeps_last_elements() {
    let d = filled(&[1, 2, 3, 4], Some(2));
    assert_eq!(d.to_vec(), vec![3, 4]);
    assert_eq!(d.maxlen(), Some(2));
}

#[test]
fn scans_count_find_and_remove() {
    let mut d = filled(&[1, 2, 1, 3], None);
    let g = d.generation();
    assert_eq!(d.count(1, g), Ok(2));
    assert_eq!(d.contains(3, g), Ok(true));
    assert_eq!(d.contains(4, g), Ok(false));
    assert_eq!(d.index(1, Some(1), None, g), Ok(2));
    assert_eq!(d.index(1, Some(-2), Some(-1), g), Ok(2));
    assert_eq!(d.index(3, None, Some(3), g), Err(DequeError::NotFound));
    assert_eq!(d.remove(1, g), Ok(1));
    assert_eq!(d.to_vec(), vec![2, 1, 3]);
    assert_ne!(d.generation(), g);
    let h = d.generation();
    assert_eq!(d.remove(9, h), Err(DequeError::NotFound));
    assert_eq!(d.generation(), h);
}

#[test]
fn stale_snapshot_reports_mutation() {
    let mut d = filled(&[1, 2], None);
    let g = d.generation();
    d.append(3);
    assert_eq!(d.count(1, g), Err(DequeError::ConcurrentMutation));
    assert_eq!(d.contains(1, g), Err(DequeError::ConcurrentMutation));
    assert_eq!(d.index(1, None, None, g), Err(DequeError::ConcurrentMutation));
    assert_eq!(d.remove(1, g), Err(DequeError::ConcurrentMutation));
    assert_eq!(d.to_vec(), vec![1, 2, 3]);
}

#[test]
fn repetition_keeps_tail_within_capacity() {
    let d = filled(&[1, 2, 3], Some(4));
    let m = d.mul(2).unwrap();
    assert_eq!(m.to_vec(), vec![3, 1, 2, 3]);
    assert_eq!(m.maxlen(), Some(4));
    assert_eq!(m.generation(), 0);
    assert_eq!(d.mul(0).unwrap().len(), 0);
    assert_eq!(d.mul(-3).unwrap().len(), 0);
    let u = filled(&[1, 2], None);
    assert_eq!(u.mul(3).unwrap().to_vec(), vec![1, 2, 1, 2, 1, 2]);
}

#[test]
fn repetition_overflow_is_refused() {
    let d = filled(&[1, 2], None);
    assert!(matches!(d.mul(isize::MAX), Err(DequeError::SizeOverflow)));
    let mut e = filled(&[1, 2], None);
    assert_eq!(e.imul(isize::MAX), Err(DequeError::SizeOverflow));
    assert_eq!(e.to_vec(), vec![1, 2]);
}

#[test]
fn in_place_repetition_keeps_generation() {
    let mut d = filled(&[1, 2], None);
    let g = d.generation();
    d.imul(2).unwrap();
    assert_eq!(d.to_vec(), vec![1, 2, 1, 2]);
    assert_eq!(d.generation(), g);
}

#[test]
fn concatenation_trims_front() {
    let a = filled(&[1, 2], Some(3));
    let b = filled(&[3, 4], None);
    let c = a.concat(&b).unwrap();
    assert_eq!(c.to_vec(), vec![2, 3, 4]);
    assert_eq!(c.maxlen(), Some(3));
    assert_eq!(c.generation(), 0);
}

#[test]
fn reverse_keeps_generation() {
    let mut d = filled(&[1, 2, 3], None);
    let g = d.generation();
    d.reverse();
    assert_eq!(d.to_vec(), vec![3, 2, 1]);
    assert_eq!(d.generation(), g);
}

#[test]
fn clear_bumps_generation() {
    let mut d = filled(&[1, 2], None);
    let g = d.generation();
    d.clear();
    assert_eq!(d.len(), 0);
    assert!(!d.is_nonempty());
    assert_ne!(d.generation(), g);
}

#[test]
fn copy_is_equal() {
    let d = filled(&[4, 5], Some(3));
    let c = d.copy();
    assert_eq!(c.to_vec(), vec![4, 5]);
    assert_eq!(c.maxlen(), Some(3));
    assert_eq!(c.generation(), d.generation());
}

#[test]
fn lexicographic_comparison() {
    let a = filled(&[1, 2, 3], None);
    let b = filled(&[1, 2, 4], None);
    let c = filled(&[1, 2], None);
    assert!(a.compare(&b, CompareOp::Lt));
    assert!(!a.compare(&b, CompareOp::Ge));
    assert!(c.compare(&a, CompareOp::Lt));
    assert!(a.compare(&a, CompareOp::Eq));
    assert!(a.compare(&c, CompareOp::Gt));
    assert!(a.compare(&b, CompareOp::Ne));
    assert!(a.compare(&a.copy(), CompareOp::Le));
}

#[test]
fn forward_cursor_walks_and_stays_exhausted() {
    let d = filled(&[1, 2], None);
    let mut it = d.iter();
    assert_eq!(it.length_hint(&d), 2);
    assert_eq!(it.next(&d), Ok(Some(1)));
    assert_eq!(it.next(&d), Ok(Some(2)));
    assert_eq!(it.next(&d), Ok(None));
    assert_eq!(it.next(&d), Ok(None));
    assert_eq!(it.length_hint(&d), 0);
    let (empty, pos) = it.reduce(&d);
    assert_eq!(empty.len(), 0);
    assert_eq!(pos, 2);
}

#[test]
fn reverse_cursor_walks_and_stays_exhausted() {
    let d = filled(&[1, 2, 3], None);
    let mut it = d.reversed();
    assert_eq!(it.next(&d), Ok(Some(3)));
    assert_eq!(it.length_hint(&d), 2);
    assert_eq!(it.next(&d), Ok(Some(2)));
    assert_eq!(it.next(&d), Ok(Some(1)));
    assert_eq!(it.next(&d), Ok(None));
    assert_eq!(it.next(&d), Ok(None));
    assert_eq!(it.length_hint(&d), 0);
}

#[test]
fn cursors_resume_at_index() {
    let d = filled(&[1, 2, 3], None);
    let mut it = DequeIterator::with_index(&d, Some(2));
    assert_eq!(it.next(&d), Ok(Some(3)));
    let mut rit = ReverseDequeIterator::with_index(&d, Some(1));
    assert_eq!(rit.next(&d), Ok(Some(2)));
    let neg = DequeIterator::with_index(&d, Some(-5));
    assert_eq!(neg.length_hint(&d), 3);
    let (copy, pos) = neg.reduce(&d);
    assert_eq!(copy.to_vec(), vec![1, 2, 3]);
    assert_eq!(pos, 0);
}

#[test]
fn mutation_after_cursor_creation_is_detected() {
    let mut d = filled(&[1, 2, 3], None);
    let mut it = d.iter();
    let mut rit = d.reversed();
    assert_eq!(it.next(&d), Ok(Some(1)));
    d.append(4);
    assert_eq!(it.next(&d), Err(DequeError::ConcurrentMutation));
    assert_eq!(rit.next(&d), Err(DequeError::ConcurrentMutation));
}

#[test]
fn reconstruction_round_trip() {
    let mut d = Deque::new(Some(3));
    for x in [5, 6, 7, 8] {
        d.append(x);
    }
    let (maxlen, cursor) = d.reduce();
    let r = Deque::replay(maxlen, cursor, &d).unwrap();
    assert_eq!(r.to_vec(), d.to_vec());
    assert_eq!(r.maxlen(), Some(3));
    let e = Deque::new(None);
    let (m, c) = e.reduce();
    let back = Deque::replay(m, c, &e).unwrap();
    assert_eq!(back.len(), 0);
    assert_eq!(back.maxlen(), None);
}

#[test]
fn replay_after_mutation_fails() {
    let mut d = filled(&[1, 2], None);
    let (m, c) = d.reduce();
    d.pop().unwrap();
    assert!(matches!(Deque::replay(m, c, &d), Err(DequeError::ConcurrentMutation)));
}

#[test]
fn text_of_container() {
    let d = filled(&[1, -20, 300], None);
    assert_eq!(d.repr(), "deque([1, -20, 300])");
    let e = Deque::new(Some(5));
    assert_eq!(e.repr(), "deque([], maxlen=5)");
    let f = filled(&[i64::MIN, 0, i64::MAX], Some(10));
    assert_eq!(
        f.repr(),
        format!("deque([{}, 0, {}], maxlen=10)", i64::MIN, i64::MAX)
    );
}

#[test]
fn item_assignment_and_in_place_concat() {
    let mut d = filled(&[1, 2, 3], Some(4));
    d.ass_item(1, Some(9)).unwrap();
    d.ass_item(-1, None).unwrap();
    assert_eq!(d.to_vec(), vec![1, 9]);
    assert_eq!(d.ass_item(2, None), Err(DequeError::OutOfRange));
    let other = filled(&[5, 6, 7], None);
    let g = d.generation();
    d.iadd(&other);
    assert_eq!(d.to_vec(), vec![9, 5, 6, 7]);
    assert_ne!(d.generation(), g);
}
