use iter_view::iter;
use iter_view::IterView;
use iter_view::RangeCursor;
use iter_view::Traversal;

fn iter_view<'a, T: IterView<'a> + ?Sized>(o: &'a T) -> T::Iter {
    o.iter()
}

#[test]
fn iter_vec() {
    let v = vec![1, 2, 3];
    let mut iter = iter_view(&v);
    assert_eq!(iter.next(), Some(&1));
    assert_eq!(iter.next(), Some(&2));
    assert_eq!(iter.next(), Some(&3));
    assert_eq!(iter.next(), None);
}

#[test]
fn iter_option() {
    let mut v = Some(1);
    let mut iter = iter_view(&v);
    assert_eq!(iter.next(), Some(&1));
    assert_eq!(iter.next(), None);

    v = None;
    let mut iter = iter_view(&v);
    assert_eq!(iter.next(), None);
}

#[test]
fn iter_result() {
    let v: std::io::Result<i32> = Ok(1i32);
    let mut iter = iter_view(&v);
    assert_eq!(iter.next(), Some(&1));
    assert_eq!(iter.next(), None);

    let v: Result<(), &str> = Err("foo");
    let mut iter = iter_view(&v);
    assert_eq!(iter.next(), None);
}

#[test]
fn iter_func() {
    let mut vals = iter_view(&iter(&3, |v: &usize| RangeCursor::new(0, *v)));
    assert_eq!(vals.next(), Some(0));
    assert_eq!(vals.next(), Some(1));
    assert_eq!(vals.next(), Some(2));
    assert_eq!(vals.next(), None);
}

#[test]
fn iter_slice() {
    let v: &[u8] = &[1, 2, 3];
    let mut iter = iter_view(&v);
    assert_eq!(iter.next(), Some(&1));
    assert_eq!(iter.next(), Some(&2));
    assert_eq!(iter.next(), Some(&3));
    assert_eq!(iter.next(), None);
}

#[test]
fn iter_array() {
    let v: [u8; 3] = [1, 2, 3];
    let mut iter = iter_view(&v);
    assert_eq!(iter.next(), Some(&1));
    assert_eq!(iter.next(), Some(&2));
    assert_eq!(iter.next(), Some(&3));
    assert_eq!(iter.next(), None);
}

#[test]
fn iter_vec_twice_same_output() {
    let v = vec![4, 5, 6];
    let mut first = iter_view(&v);
    let mut second = iter_view(&v);
    let mut collected_first = Vec::new();
    while let Some(x) = first.next() {
        collected_first.push(*x);
    }
    let mut collected_second = Vec::new();
    while let Some(x) = second.next() {
        collected_second.push(*x);
    }
    assert_eq!(collected_first, vec![4, 5, 6]);
    assert_eq!(collected_first, collected_second);
}

#[test]
fn iter_empty_vec() {
    let v: Vec<i32> = Vec::new();
    let mut iter = iter_view(&v);
    assert_eq!(iter.next(), None);
    assert_eq!(iter.next(), None);
}

#[test]
fn iter_box_delegates() {
    let b = Box::new(vec![7, 8]);
    let mut outer = iter_view(&b);
    let mut inner = iter_view(&*b);
    loop {
        let x = outer.next();
        let y = inner.next();
        assert_eq!(x, y);
        if x.is_none() {
            break;
        }
    }
}

#[test]
fn iter_ref_delegates() {
    let v = vec![9, 10];
    let r: &Vec<i32> = &v;
    let mut iter = iter_view(&r);
    assert_eq!(iter.next(), Some(&9));
    assert_eq!(iter.next(), Some(&10));
    assert_eq!(iter.next(), None);
}

#[test]
fn iter_func_empty_range() {
    let mut vals = iter_view(&iter(&0, |v: &usize| RangeCursor::new(0, *v)));
    assert_eq!(vals.next(), None);
}

#[test]
fn iter_deque() {
    let mut q = std::collections::VecDeque::new();
    q.push_back(2);
    q.push_back(3);
    q.push_front(1);
    let mut iter = iter_view(&q);
    assert_eq!(iter.next(), Some(&1));
    assert_eq!(iter.next(), Some(&2));
    assert_eq!(iter.next(), Some(&3));
    assert_eq!(iter.next(), None);
}

#[test]
fn range_cursor_reversed_bounds_is_empty() {
    let mut c = iter_view::RangeCursor::new(3, 0);
    assert_eq!(c.next(), None);
}
