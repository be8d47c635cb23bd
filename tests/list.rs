use persistent::list::{List, Node};

#[test]
fn test() {
    let p0 = List::nil();
    let p1: List<i64> = List::cons(1, p0.clone());
    let p2a = List::cons(2, p1.clone());
    let p2b = List::cons(2, p1.clone());
    let p2c = List::cons(3, p1.clone());
    assert!(p0 == p0);
    assert!(p1 == p1);
    assert!(p0 != p1);
    assert!(p2a == p2b);
    assert!(p2a < p2c);
    assert!(p1 < p2c);
    assert!(p0 == p0.reverse());
    assert!(p1 == p1.reverse());
    assert!(p2a > p2a.reverse());
    assert!(p2a == p2a.reverse().reverse());
    let mut sum = 0;
    for i in p2c.iter() {
        sum += *i;
    }
    assert!(sum == 4);
    let seq = vec![1, 3, 2];
    let mut digits = 0;
    let seql: List<i64> = List::from_sequence(seq);
    for i in seql.iter() {
        digits = digits * 10 + *i;
    }
    assert!(digits == 132);
    assert!(p0 == Default::default());
}

fn elems(l: &List<i64>) -> Vec<i64> {
    l.iter().into_iter().copied().collect()
}

#[test]
fn equal_lists_built_apart() {
    let a: List<i64> = List::cons(2, List::cons(1, List::nil()));
    let b: List<i64> = List::cons(2, List::cons(1, List::nil()));
    assert!(a == b);
    assert!(!(a != b));
}

#[test]
fn unequal_on_length_or_element() {
    let one: List<i64> = List::cons(1, List::nil());
    assert!(one != List::nil());
    assert!(List::<i64>::nil() != one);
    let two: List<i64> = List::cons(1, List::cons(2, List::nil()));
    assert!(one != two);
    let other: List<i64> = List::cons(5, List::nil());
    assert!(one != other);
}

#[test]
fn order_by_head_over_shared_tail() {
    let t: List<i64> = List::from_sequence(vec![7, 8]);
    let a = List::cons(2, t.clone());
    let b = List::cons(3, t.clone());
    assert!(a < b);
    assert!(b > a);
    assert!(!(b < a));
    assert_eq!(a.partial_cmp(&b), Some(std::cmp::Ordering::Less));
}

#[test]
fn order_of_proper_prefix() {
    let short: List<i64> = List::from_sequence(vec![1, 2]);
    let long: List<i64> = List::from_sequence(vec![1, 2, 0]);
    assert!(short < long);
    assert!(long > short);
    assert!(List::<i64>::nil() < short);
    assert_eq!(short.partial_cmp(&short), Some(std::cmp::Ordering::Equal));
}

#[test]
fn reverse_twice_and_palindromes() {
    let l: List<i64> = List::from_sequence(vec![4, 5, 6]);
    let r = l.reverse();
    assert_eq!(elems(&r), vec![6, 5, 4]);
    assert!(r != l);
    assert!(r.reverse() == l);
    assert_eq!(elems(&l), vec![4, 5, 6]);
    let p: List<i64> = List::from_sequence(vec![1, 2, 1]);
    assert!(p.reverse() == p);
}

#[test]
fn length_matches_iteration() {
    let l: List<i64> = List::from_sequence(vec![9, 8, 7, 6]);
    assert_eq!(l.len(), 4);
    assert_eq!(l.iter().len(), l.len());
    assert_eq!(List::<i64>::nil().len(), 0);
    assert_eq!(List::<i64>::nil().iter().len(), 0);
}

#[test]
fn from_sequence_keeps_order() {
    let l: List<i64> = List::from_sequence(vec![1, 3, 2]);
    assert_eq!(elems(&l), vec![1, 3, 2]);
    let mut digits = 0;
    for d in l.iter() {
        digits = digits * 10 + *d;
    }
    assert_eq!(digits, 132);
    let e: List<i64> = List::from_sequence(Vec::new());
    assert!(e.is_empty());
    assert!(e == List::nil());
}

#[test]
fn default_is_nil() {
    let d: List<i64> = List::default();
    assert!(d == List::nil());
    assert!(d.is_empty());
}

#[test]
fn prepend_leaves_tail_alone() {
    let t: List<i64> = List::from_sequence(vec![1, 2]);
    let a = List::cons(0, t.clone());
    assert_eq!(elems(&t), vec![1, 2]);
    assert_eq!(elems(&a), vec![0, 1, 2]);
}

#[test]
fn node_decomposes() {
    let l: List<i64> = List::cons(4, List::cons(5, List::nil()));
    match l.node() {
        Node::Cons(x, rest) => {
            assert_eq!(*x, 4);
            assert_eq!(elems(rest), vec![5]);
        }
        Node::Nil => panic!("a non-empty list starts with a Cons"),
    }
    assert!(matches!(List::<i64>::nil().node(), Node::Nil));
    assert!(!l.is_empty());
}

#[test]
fn new_from_node() {
    let l: List<i64> = List::new(Node::Cons(3, List::new(Node::Nil)));
    assert_eq!(elems(&l), vec![3]);
    assert!(List::<i64>::new(Node::Nil).is_empty());
}

#[test]
fn end_to_end_scenario() {
    let p0: List<i64> = List::nil();
    let p1 = List::cons(1, p0.clone());
    let p2a = List::cons(2, p1.clone());
    let p2b = List::cons(2, p1.clone());
    let p2c = List::cons(3, p1.clone());
    assert!(p0 == p0);
    assert!(p0 != p1);
    assert!(p2a == p2b);
    assert!(p2a < p2c);
    assert!(p1 < p2c);
    let sum: i64 = p2c.iter().into_iter().sum();
    assert_eq!(sum, 4);
}
