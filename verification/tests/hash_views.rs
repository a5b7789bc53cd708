use std::collections::HashMap;
use std::collections::HashSet;

use iter_view::IterView;
use iter_view::Traversal;

fn iter_view<'a, T: IterView<'a> + ?Sized>(o: &'a T) -> T::Iter {
    o.iter()
}

#[test]
fn iter_hash_map_covers_entries() {
    let mut m: HashMap<u32, u32> = HashMap::new();
    m.insert(1, 10);
    m.insert(2, 20);
    let mut iter = iter_view(&m);
    let mut pairs = Vec::new();
    while let Some((k, v)) = iter.next() {
        pairs.push((*k, *v));
    }
    assert_eq!(pairs.len(), 2);
    pairs.sort();
    assert_eq!(pairs, vec![(1, 10), (2, 20)]);
}

#[test]
fn iter_hash_map_twice_same_output() {
    let mut m: HashMap<u32, u32> = HashMap::new();
    m.insert(5, 50);
    m.insert(6, 60);
    m.insert(7, 70);
    let mut first = iter_view(&m);
    let mut second = iter_view(&m);
    loop {
        let x = first.next();
        let y = second.next();
        assert_eq!(x, y);
        if x.is_none() {
            break;
        }
    }
}

#[test]
fn iter_empty_hash_map() {
    let m: HashMap<u32, u32> = HashMap::new();
    let mut iter = iter_view(&m);
    assert_eq!(iter.next(), None);
}

#[test]
fn iter_hash_set_covers_members() {
    let mut s: HashSet<u32> = HashSet::new();
    s.insert(3);
    s.insert(4);
    let mut iter = iter_view(&s);
    let mut members = Vec::new();
    while let Some(k) = iter.next() {
        members.push(*k);
    }
    assert_eq!(members.len(), 2);
    members.sort();
    assert_eq!(members, vec![3, 4]);
}
