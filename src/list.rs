use std::cmp::Ordering;
use std::rc::Rc;
use vstd::prelude::*;
use vstd::std_specs::cmp::{PartialEqSpec, PartialOrdSpec};

verus! {

/// Persistent cons/nil list.
/// O(1) access to the head of the list; modified versions of the list with
/// shared tails are created without copying those tails.
pub struct List<T> {
    node: Rc<Node<T>>,
}

/// One cell of a list: the end, or an element followed by the rest.
pub enum Node<T> {
    Nil,
    Cons(T, List<T>),
}

impl<T> List<T> {
    /// The elements of the list, front to back.
    pub closed spec fn elems(self) -> Seq<T>
        decreases self,
    {
        match *self.node {
            Node::Nil => Seq::empty(),
            Node::Cons(x, xs) => seq![x] + xs.elems(),
        }
    }
}

impl<T> View for List<T> {
    type V = Seq<T>;

    open spec fn view(&self) -> Seq<T> {
        self.elems()
    }
}

impl<T> List<T> {
    /// Create an empty list.
    pub fn nil() -> (r: List<T>)
        ensures
            r@ == Seq::<T>::empty(),
    {
        List::new(Node::Nil)
    }

    /// Create a list from the head and the rest of the list.
    pub fn cons(x: T, xs: List<T>) -> (r: List<T>)
        ensures
            r@ == seq![x] + xs@,
    {
        List::new(Node::Cons(x, xs))
    }

    /// Create a list from a node.
    pub fn new(node: Node<T>) -> (r: List<T>)
        ensures
            r@ == node.elems(),
    {
        List { node: Rc::new(node) }
    }
}

impl<T> Node<T> {
    /// The elements of the list that starts at this node.
    pub open spec fn elems(self) -> Seq<T> {
        match self {
            Node::Nil => Seq::empty(),
            Node::Cons(x, xs) => seq![x] + xs@,
        }
    }
}

impl<T> Clone for List<T> {
    /// Another handle on the same nodes: nothing is copied.
    fn clone(&self) -> (r: List<T>)
        ensures
            r@ == self@,
    {
        List { node: Rc::clone(&self.node) }
    }
}

impl<T> List<T> {
    /// The first node of the list, to pattern match on `Nil` and `Cons`.
    pub fn node(&self) -> (r: &Node<T>)
        ensures
            r.elems() == self@,
    {
        &*self.node
    }

    /// Whether the list has no elements.
    pub fn is_empty(&self) -> (r: bool)
        ensures
            r == (self@.len() == 0),
    {
        match self.node() {
            Node::Nil => true,
            Node::Cons(_, _) => false,
        }
    }
}

impl<T> List<T> {
    /// References to the elements, front to back.
    pub fn iter(&self) -> (r: Vec<&T>)
        ensures
            r@.len() == self@.len(),
            forall|i: int| 0 <= i < r@.len() ==> *r@[i] == self@[i],
    {
        let mut out: Vec<&T> = Vec::new();
        let mut cur = self;
        loop
            invariant
                out@.len() + cur@.len() == self@.len(),
                cur@ == self@.skip(out@.len() as int),
                forall|i: int| 0 <= i < out@.len() ==> *out@[i] == self@[i],
            decreases cur@.len(),
        {
            match cur.node() {
                Node::Nil => {
                    return out;
                },
                Node::Cons(x, xs) => {
                    proof {
                        assert(cur@ == seq![*x] + xs@);
                        assert(cur@[0] == *x);
                        assert(self@[out@.len() as int] == *x);
                        assert(xs@ =~= cur@.skip(1));
                        assert(xs@ =~= self@.skip(out@.len() + 1 as int));
                    }
                    out.push(x);
                    cur = xs;
                },
            }
        }
    }

    /// The number of elements.
    pub fn len(&self) -> (r: usize)
        requires
            self@.len() <= usize::MAX,
        ensures
            r == self@.len(),
    {
        let mut n: usize = 0;
        let mut cur = self;
        while !cur.is_empty()
            invariant
                n + cur@.len() == self@.len(),
                self@.len() <= usize::MAX,
            decreases cur@.len(),
        {
            match cur.node() {
                Node::Nil => {},
                Node::Cons(_, xs) => {
                    cur = xs;
                },
            }
            n = n + 1;
        }
        n
    }
}

/// `r` holds the elements of `s` in reverse order, each one a clone of the
/// element it stands for.
pub open spec fn reversal_of<T: Clone>(s: Seq<T>, r: Seq<T>) -> bool {
    &&& r.len() == s.len()
    &&& forall|i: int| 0 <= i < s.len() ==> cloned(s[s.len() - 1 - i], #[trigger] r[i])
}

/// Cloning a `T` gives back an equal value (as it does for integers).
pub open spec fn clone_is_exact<T: Clone>() -> bool {
    forall|a: T, b: T| cloned(a, b) ==> a == b
}

impl<T: Clone> List<T> {
    /// Prepend clones of the elements of `self`, front to back, onto `acc`.
    fn reverse_impl(&self, acc: List<T>) -> (r: List<T>)
        ensures
            r@.len() == self@.len() + acc@.len(),
            r@.skip(self@.len() as int) == acc@,
            reversal_of(self@, r@.take(self@.len() as int)),
    {
        let ghost acc0 = acc@;
        let mut out = acc;
        let mut cur = self;
        let ghost mut k: int = 0;
        loop
            invariant
                0 <= k <= self@.len(),
                cur@ == self@.skip(k),
                out@.len() == k + acc0.len(),
                out@.skip(k) == acc0,
                acc0 == acc@,
                forall|i: int| 0 <= i < k ==> cloned(self@[k - 1 - i], #[trigger] out@[i]),
            decreases cur@.len(),
        {
            match cur.node() {
                Node::Nil => {
                    proof {
                        assert(self@.len() == k);
                        assert(reversal_of(self@, out@.take(k)));
                    }
                    return out;
                },
                Node::Cons(x, xs) => {
                    proof {
                        assert(cur@ == seq![*x] + xs@);
                        assert(cur@[0] == *x);
                        assert(self@[k] == *x);
                        assert(xs@ =~= cur@.skip(1));
                        assert(xs@ =~= self@.skip(k + 1));
                    }
                    let y = x.clone();
                    let ghost old_out = out@;
                    out = List::cons(y, out);
                    proof {
                        assert(out@.skip(k + 1) =~= old_out.skip(k));
                        assert forall|i: int| 0 <= i < k + 1 implies cloned(
                            self@[k + 1 - 1 - i],
                            #[trigger] out@[i],
                        ) by {
                            if i > 0 {
                                assert(out@[i] == old_out[i - 1]);
                            }
                        }
                        k = k + 1;
                    }
                    cur = xs;
                },
            }
        }
    }

    /// A new list with clones of the elements of `self` in reverse order.
    pub fn reverse(&self) -> (r: List<T>)
        ensures
            reversal_of(self@, r@),
            clone_is_exact::<T>() ==> r@ == self@.reverse(),
    {
        let r = self.reverse_impl(List::nil());
        proof {
            assert(r@.take(self@.len() as int) =~= r@);
            if clone_is_exact::<T>() {
                assert forall|i: int| 0 <= i < r@.len() implies r@[i] == self@.reverse()[i] by {
                    assert(cloned(self@[self@.len() - 1 - i], r@[i]));
                }
                assert(r@ =~= self@.reverse());
            }
        }
        r
    }
}

impl<T> List<T> {
    /// A list of the given items, in their order: they are prepended from the
    /// last to the first, in a loop.
    pub fn from_sequence(items: Vec<T>) -> (r: List<T>)
        ensures
            r@ == items@,
    {
        let ghost all = items@;
        let mut items = items;
        let mut acc: List<T> = List::nil();
        while items.len() > 0
            invariant
                all == items@ + acc@,
            decreases items@.len(),
        {
            let ghost before = items@;
            match items.pop() {
                Some(x) => {
                    acc = List::cons(x, acc);
                    proof {
                        assert(before == items@.push(x));
                        assert(all =~= items@ + acc@);
                    }
                },
                None => {},
            }
        }
        proof {
            assert(all =~= acc@);
        }
        acc
    }
}

impl<T> Default for List<T> {
    /// The empty list.
    fn default() -> (r: List<T>)
        ensures
            r@ == Seq::<T>::empty(),
    {
        List::nil()
    }
}

/// Element by element equality of two sequences, by the elements' own `==`.
pub open spec fn seq_eq<T: PartialEqSpec>(a: Seq<T>, b: Seq<T>) -> bool {
    &&& a.len() == b.len()
    &&& forall|i: int| 0 <= i < a.len() ==> (#[trigger] a[i]).eq_spec(&b[i])
}

impl<T: PartialEqSpec> PartialEq for List<T> {
    /// Structural equality: same length and equal elements, position by
    /// position.
    fn eq(&self, other: &List<T>) -> (r: bool) {
        let mut a = self;
        let mut b = other;
        let ghost mut k: int = 0;
        loop
            invariant
                0 <= k <= self@.len(),
                k <= other@.len(),
                a@ == self@.skip(k),
                b@ == other@.skip(k),
                T::obeys_eq_spec() ==> (seq_eq(self@, other@) <==> seq_eq(a@, b@)),
            decreases a@.len(),
        {
            match (a.node(), b.node()) {
                (Node::Nil, Node::Nil) => {
                    return true;
                },
                (Node::Cons(x, xs), Node::Cons(y, ys)) => {
                    proof {
                        assert(a@ == seq![*x] + xs@);
                        assert(b@ == seq![*y] + ys@);
                        assert(xs@ =~= a@.skip(1));
                        assert(ys@ =~= b@.skip(1));
                    }
                    if !x.eq(y) {
                        proof {
                            assert(a@[0] == *x);
                            assert(b@[0] == *y);
                        }
                        return false;
                    }
                    proof {
                        assert(xs@ =~= self@.skip(k + 1));
                        assert(ys@ =~= other@.skip(k + 1));
                        if T::obeys_eq_spec() {
                            if seq_eq(xs@, ys@) {
                                assert forall|i: int| 0 <= i < a@.len() implies (#[trigger] a@[i]).eq_spec(
                                    &b@[i],
                                ) by {
                                    if i > 0 {
                                        assert(a@[i] == xs@[i - 1]);
                                        assert(b@[i] == ys@[i - 1]);
                                    }
                                }
                            }
                            if seq_eq(a@, b@) {
                                assert forall|i: int| 0 <= i < xs@.len() implies (#[trigger] xs@[i]).eq_spec(
                                    &ys@[i],
                                ) by {
                                    assert(a@[i + 1] == xs@[i]);
                                    assert(b@[i + 1] == ys@[i]);
                                }
                            }
                        }
                        k = k + 1;
                    }
                    a = xs;
                    b = ys;
                },
                (_, _) => {
                    return false;
                },
            }
        }
    }
}

impl<T: PartialEqSpec> vstd::std_specs::cmp::PartialEqSpecImpl for List<T> {
    open spec fn obeys_eq_spec() -> bool {
        T::obeys_eq_spec()
    }

    open spec fn eq_spec(&self, other: &List<T>) -> bool {
        seq_eq(self@, other@)
    }
}

impl<T: Eq + PartialEqSpec> Eq for List<T> {

}

/// Lexicographic order of two sequences by the elements' own order: the
/// shorter of two sequences where one is a prefix of the other comes first.
pub open spec fn lex_cmp<T: PartialOrdSpec>(a: Seq<T>, b: Seq<T>) -> Option<Ordering>
    decreases a.len(),
{
    if a.len() == 0 {
        if b.len() == 0 {
            Some(Ordering::Equal)
        } else {
            Some(Ordering::Less)
        }
    } else if b.len() == 0 {
        Some(Ordering::Greater)
    } else {
        match a[0].partial_cmp_spec(&b[0]) {
            Some(Ordering::Equal) => lex_cmp(a.drop_first(), b.drop_first()),
            o => o,
        }
    }
}

impl<T: PartialOrdSpec + PartialEqSpec> PartialOrd for List<T> {
    /// Lexicographic order: `Nil` before `Cons`; two `Cons` by their heads,
    /// then, where the heads are equal, by their tails.
    fn partial_cmp(&self, other: &List<T>) -> (r: Option<Ordering>) {
        let mut a = self;
        let mut b = other;
        loop
            invariant
                T::obeys_partial_cmp_spec() ==> lex_cmp(self@, other@) == lex_cmp(a@, b@),
            decreases a@.len(),
        {
            match (a.node(), b.node()) {
                (Node::Nil, Node::Nil) => {
                    return Some(Ordering::Equal);
                },
                (Node::Nil, Node::Cons(_, _)) => {
                    return Some(Ordering::Less);
                },
                (Node::Cons(_, _), Node::Nil) => {
                    return Some(Ordering::Greater);
                },
                (Node::Cons(x, xs), Node::Cons(y, ys)) => {
                    proof {
                        assert(a@ == seq![*x] + xs@);
                        assert(b@ == seq![*y] + ys@);
                        assert(a@[0] == *x);
                        assert(b@[0] == *y);
                        assert(xs@ =~= a@.drop_first());
                        assert(ys@ =~= b@.drop_first());
                    }
                    match x.partial_cmp(y) {
                        Some(Ordering::Equal) => {},
                        o => {
                            return o;
                        },
                    }
                    a = xs;
                    b = ys;
                },
            }
        }
    }
}

impl<T: PartialOrdSpec + PartialEqSpec> vstd::std_specs::cmp::PartialOrdSpecImpl for List<T> {
    open spec fn obeys_partial_cmp_spec() -> bool {
        T::obeys_partial_cmp_spec()
    }

    open spec fn partial_cmp_spec(&self, other: &List<T>) -> Option<Ordering> {
        lex_cmp(self@, other@)
    }
}

} // verus!
