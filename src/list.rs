use crate::pattern::AsPattern;
use std::rc::Rc;
use vstd::prelude::*;

verus! {

/// A node of the chain: one element and the rest of the chain. Nodes are
/// shared between lists and never change once built.
struct Node<T> {
    elm: T,
    next: Option<Rc<Node<T>>>,
}

/// A persistent singly linked list. Its nodes are reference counted and
/// shared: lists built on a common tail hold that tail once.
pub struct List<T>(Option<Rc<Node<T>>>);

/// The elements of a chain, from its first node to its last.
closed spec fn link_seq<T>(link: Option<Rc<Node<T>>>) -> Seq<T>
    decreases link,
{
    match link {
        None => Seq::empty(),
        Some(n) => seq![n.elm].add(link_seq(n.next)),
    }
}

impl<T> View for List<T> {
    type V = Seq<T>;

    /// The elements of the list, head first.
    closed spec fn view(&self) -> Seq<T> {
        link_seq(self.0)
    }
}

/// `b` holds, position by position, clones of the elements of `a`.
pub open spec fn clones_of<T: Clone>(a: Seq<T>, b: Seq<T>) -> bool {
    &&& a.len() == b.len()
    &&& forall|i: int| 0 <= i < a.len() ==> #[trigger] cloned(a[i], b[i])
}

/// The elements of the list that results from prepending `xs[0]`, then
/// `xs[1]`, and so on, onto a list holding `s`: the last one prepended comes
/// first.
pub open spec fn prepend_all<T>(xs: Seq<T>, s: Seq<T>) -> Seq<T>
    decreases xs.len(),
{
    if xs.len() == 0 {
        s
    } else {
        seq![xs.last()].add(prepend_all(xs.drop_last(), s))
    }
}

/// Another reference to the same chain.
fn share<T>(link: &Option<Rc<Node<T>>>) -> (r: Option<Rc<Node<T>>>)
    ensures
        r == *link,
{
    match link {
        None => None,
        Some(n) => Some(Rc::clone(n)),
    }
}

/// The empty list. It allocates nothing.
pub fn nil<T>() -> (r: List<T>)
    ensures
        r@ == Seq::<T>::empty(),
{
    List(None)
}

/// The list with `elm` in front of the elements of `list`. One node is
/// allocated; `list` is left as it was and its nodes are shared, not copied.
pub fn cons<T>(elm: T, list: &List<T>) -> (r: List<T>)
    ensures
        r@ == seq![elm].add(list@),
{
    let next = share(&list.0);
    List(Some(Rc::new(Node { elm, next })))
}

impl<T: Clone> List<T> {
    /// A clone of the first element. The list must not be empty.
    pub fn head(&self) -> (r: T)
        requires
            self@.len() > 0,
        ensures
            cloned(self@[0], r),
    {
        match &self.0 {
            Some(n) => n.elm.clone(),
            None => unreached(),
        }
    }
}

impl<T> Clone for List<T> {
    /// Another handle on the same nodes: nothing is copied.
    fn clone(&self) -> (r: Self)
        ensures
            r@ == self@,
    {
        List(share(&self.0))
    }
}

/// The structural view: empty, or the first element and the rest.
pub enum L<T> {
    Nil,
    Cons(T, List<T>),
}

/// The head-value view: the first element alone.
pub struct Val<T>(pub T);

/// The count view: the first elements of a list with fewer than four, or
/// the mere fact that a fourth exists.
pub enum Count<T> {
    Empty,
    Single(T),
    Double(T, T),
    Triple(T, T, T),
    Many,
}

impl<T: Clone> AsPattern<L<T>> for List<T> {
    open spec fn pat_requires(self) -> bool {
        true
    }

    open spec fn pat_ensures(self, r: L<T>) -> bool {
        match r {
            L::Nil => self@.len() == 0,
            L::Cons(e, rest) => {
                &&& self@.len() > 0
                &&& cloned(self@[0], e)
                &&& rest@ == self@.drop_first()
            },
        }
    }

    /// The rest of the list shares the nodes of `self`.
    fn pat(self) -> (r: L<T>) {
        match &self.0 {
            None => L::Nil,
            Some(n) => {
                proof {
                    assert(self@.drop_first() =~= link_seq(n.next));
                }
                L::Cons(n.elm.clone(), List(share(&n.next)))
            },
        }
    }
}

impl<T: Clone> AsPattern<Val<T>> for List<T> {
    open spec fn pat_requires(self) -> bool {
        self@.len() > 0
    }

    open spec fn pat_ensures(self, r: Val<T>) -> bool {
        cloned(self@[0], r.0)
    }

    fn pat(self) -> (r: Val<T>) {
        Val(self.head())
    }
}

impl<T: Clone> AsPattern<Count<T>> for List<T> {
    open spec fn pat_requires(self) -> bool {
        true
    }

    open spec fn pat_ensures(self, r: Count<T>) -> bool {
        let s = self@;
        match r {
            Count::Empty => s.len() == 0,
            Count::Single(a) => s.len() == 1 && cloned(s[0], a),
            Count::Double(a, b) => s.len() == 2 && cloned(s[0], a) && cloned(s[1], b),
            Count::Triple(a, b, c) => {
                &&& s.len() == 3
                &&& cloned(s[0], a)
                &&& cloned(s[1], b)
                &&& cloned(s[2], c)
            },
            Count::Many => s.len() >= 4,
        }
    }

    /// Looks at no more than the first four nodes.
    fn pat(self) -> (r: Count<T>) {
        proof {
            reveal_with_fuel(link_seq, 5);
        }
        match &self.0 {
            None => Count::Empty,
            Some(n1) => match &n1.next {
                None => Count::Single(n1.elm.clone()),
                Some(n2) => match &n2.next {
                    None => Count::Double(n1.elm.clone(), n2.elm.clone()),
                    Some(n3) => match &n3.next {
                        None => Count::Triple(n1.elm.clone(), n2.elm.clone(), n3.elm.clone()),
                        Some(_) => Count::Many,
                    },
                },
            },
        }
    }
}

/// Prepending the elements of `xs` one after another onto a list holding
/// `s` gives a list whose head is the last element prepended, whose length is
/// the sum of the two, and which ends with the elements of `s`, unchanged.
pub proof fn lemma_latest_prepend_is_head<T>(xs: Seq<T>, s: Seq<T>)
    ensures
        prepend_all(xs, s).len() == xs.len() + s.len(),
        prepend_all(xs, s).subrange(xs.len() as int, prepend_all(xs, s).len() as int) == s,
        xs.len() > 0 ==> prepend_all(xs, s)[0] == xs.last(),
    decreases xs.len(),
{
    if xs.len() > 0 {
        lemma_latest_prepend_is_head(xs.drop_last(), s);
        let p = prepend_all(xs, s);
        let q = prepend_all(xs.drop_last(), s);
        assert(p.subrange(xs.len() as int, p.len() as int) =~= q.subrange(
            xs.len() - 1,
            q.len() as int,
        ));
    } else {
        assert(s.subrange(0, s.len() as int) =~= s);
    }
}

/// Taking a non-empty list apart with the structural view and prepending the
/// element onto the rest gives back the list's elements in order: the first
/// one as a clone, the others as they were.
pub proof fn lemma_structural_round_trip<T: Clone>(list: List<T>, v: L<T>)
    requires
        list@.len() > 0,
        <List<T> as AsPattern<L<T>>>::pat_ensures(list, v),
    ensures
        match v {
            L::Cons(e, rest) => clones_of(list@, seq![e].add(rest@)),
            L::Nil => false,
        },
{
    match v {
        L::Cons(e, rest) => {
            let t = seq![e].add(rest@);
            assert forall|i: int| 0 <= i < list@.len() implies #[trigger] cloned(list@[i], t[i]) by {
                if i > 0 {
                    assert(t[i] == rest@[i - 1]);
                }
            }
        },
        L::Nil => {},
    }
}

/// The count view of a list built by prepending the elements of `xs` onto
/// the empty list depends on how many there were: none, one, two, three, or
/// four and more.
pub proof fn lemma_count_of_prepends<T: Clone>(xs: Seq<T>, list: List<T>, c: Count<T>)
    requires
        list@ == prepend_all(xs, Seq::empty()),
        <List<T> as AsPattern<Count<T>>>::pat_ensures(list, c),
    ensures
        xs.len() == 0 <==> c is Empty,
        xs.len() == 1 <==> c is Single,
        xs.len() == 2 <==> c is Double,
        xs.len() == 3 <==> c is Triple,
        xs.len() >= 4 <==> c is Many,
{
    lemma_latest_prepend_is_head(xs, Seq::empty());
}

/// Prepending onto one of two clones of a list leaves the other clone as it
/// was, and the new list is the element followed by that other clone's
/// elements.
pub proof fn lemma_prepend_onto_clone<T>(a: List<T>, b1: List<T>, b2: List<T>, x: T, r: List<T>)
    requires
        b1@ == a@,
        b2@ == a@,
        r@ == seq![x].add(b1@),
    ensures
        b2@ == a@,
        r@ == seq![x].add(b2@),
        r@.drop_first() == b2@,
{
    assert(r@.drop_first() =~= b2@);
}

} // verus!
