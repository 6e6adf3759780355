//! Persistent singly linked lists. Tails are shared, so a list is cheap to copy, and two lists
//! are equal exactly when they hold equal elements in the same order.
use std::rc::Rc;
use vstd::prelude::*;

verus! {

/// A value that can be copied without changing it.
pub trait Share: Sized {
    fn share(&self) -> (r: Self)
        ensures
            r == *self,
    ;
}

/// The value behind a reference.
pub open spec fn copied<T>(value: &T) -> T {
    *value
}

#[derive(Debug, PartialEq, Eq)]
pub enum List<T> {
    Nil,
    Cons(T, Rc<List<T>>),
}

impl<T: Share> Share for List<T> {
    fn share(&self) -> (r: Self) {
        match self {
            List::Nil => List::Nil,
            List::Cons(head, tail) => List::Cons(head.share(), tail.clone()),
        }
    }
}

/// The elements of `list`, first to last.
pub open spec fn elements<T>(list: List<T>) -> Seq<T>
    decreases list,
{
    match list {
        List::Nil => Seq::empty(),
        List::Cons(head, tail) => seq![head] + elements(*tail),
    }
}

impl<T> View for List<T> {
    type V = Seq<T>;

    open spec fn view(&self) -> Seq<T> {
        elements(*self)
    }
}

/// `first` followed by `second`.
pub open spec fn appended<T>(first: List<T>, second: List<T>) -> List<T>
    decreases first,
{
    match first {
        List::Nil => second,
        List::Cons(head, tail) => List::Cons(head, Rc::new(appended(*tail, second))),
    }
}

/// The first `count` elements of `list`.
pub open spec fn taken<T>(list: List<T>, count: nat) -> List<T>
    decreases list,
{
    match list {
        List::Nil => List::Nil,
        List::Cons(head, tail) => if count == 0 {
            List::Nil
        } else {
            List::Cons(head, Rc::new(taken(*tail, (count - 1) as nat)))
        },
    }
}

/// `list` without its first `count` elements.
pub open spec fn dropped<T>(list: List<T>, count: nat) -> List<T>
    decreases list,
{
    match list {
        List::Nil => List::Nil,
        List::Cons(head, tail) => if count == 0 {
            list
        } else {
            dropped(*tail, (count - 1) as nat)
        },
    }
}

/// The list of one element.
pub open spec fn one<T>(element: T) -> List<T> {
    List::Cons(element, Rc::new(List::Nil))
}

/// The list of two elements.
pub open spec fn two<T>(first: T, second: T) -> List<T> {
    List::Cons(first, Rc::new(one(second)))
}

/// The list of three elements.
pub open spec fn three<T>(first: T, second: T, third: T) -> List<T> {
    List::Cons(first, Rc::new(two(second, third)))
}

impl<T> List<T> {
    pub fn cons(head: T, tail: List<T>) -> (r: List<T>)
        ensures
            r == List::Cons(head, Rc::new(tail)),
    {
        List::Cons(head, Rc::new(tail))
    }

    pub fn one(element: T) -> (r: List<T>)
        ensures
            r == one(element),
    {
        List::cons(element, List::Nil)
    }

    pub fn two(first: T, second: T) -> (r: List<T>)
        ensures
            r == two(first, second),
    {
        List::cons(first, List::one(second))
    }

    pub fn three(first: T, second: T, third: T) -> (r: List<T>)
        ensures
            r == three(first, second, third),
    {
        List::cons(first, List::two(second, third))
    }

    /// Whether the list has no element.
    pub fn is_empty(&self) -> (r: bool)
        ensures
            r == (*self == List::<T>::Nil),
            r == (self@.len() == 0),
    {
        match self {
            List::Nil => true,
            List::Cons(_, _) => false,
        }
    }

    /// The number of elements. A list that is in memory has fewer than `usize::MAX` of them, but
    /// nothing in its type says so: the count stops there.
    pub fn len(&self) -> (r: usize)
        ensures
            self@.len() <= usize::MAX ==> r == self@.len(),
            self@.len() > usize::MAX ==> r == usize::MAX,
        decreases *self,
    {
        match self {
            List::Nil => 0,
            List::Cons(_, tail) => tail.len().saturating_add(1),
        }
    }

    /// The list that holds the elements of `elements`, in order.
    pub fn from_vec(elements: Vec<T>) -> (r: List<T>)
        ensures
            r@ == elements@,
    {
        let mut elements = elements;
        let ghost all = elements@;
        let mut list: List<T> = List::Nil;
        while elements.len() > 0
            invariant
                all == elements@ + list@,
            decreases elements.len(),
        {
            let ghost before = elements@;
            match elements.pop() {
                Some(last) => {
                    let ghost rest = list;
                    list = List::cons(last, list);
                    proof {
                        assert(list@ == seq![last] + rest@);
                        assert(before =~= elements@ + seq![last]);
                        assert(elements@ + list@ =~= before + rest@);
                    }
                },
                None => {},
            }
        }
        assert(elements@ + list@ =~= list@);
        list
    }
}

impl<T: Share> List<T> {
    /// This list followed by `other`.
    pub fn append(&self, other: &List<T>) -> (r: List<T>)
        ensures
            r == appended(*self, *other),
        decreases *self,
    {
        match self {
            List::Nil => other.share(),
            List::Cons(head, tail) => List::cons(head.share(), tail.append(other)),
        }
    }

    /// The first `count` elements.
    pub fn take(&self, count: usize) -> (r: List<T>)
        ensures
            r == taken(*self, count as nat),
        decreases *self,
    {
        match self {
            List::Nil => List::Nil,
            List::Cons(head, tail) => if count == 0 {
                List::Nil
            } else {
                List::cons(head.share(), tail.take(count - 1))
            },
        }
    }

    /// The list without its first `count` elements.
    pub fn skip(&self, count: usize) -> (r: List<T>)
        ensures
            r == dropped(*self, count as nat),
        decreases *self,
    {
        match self {
            List::Nil => List::Nil,
            List::Cons(_, tail) => if count == 0 {
                self.share()
            } else {
                tail.skip(count - 1)
            },
        }
    }

    /// This list with `element` behind its last element.
    pub fn push(&self, element: T) -> (r: List<T>)
        ensures
            r == appended(*self, one(element)),
    {
        self.append(&List::one(element))
    }

    /// The elements, in order.
    pub fn to_vec(&self) -> (r: Vec<T>)
        ensures
            r@ == self@,
    {
        let mut out: Vec<T> = Vec::new();
        let mut rest: &List<T> = self;
        assert(out@ + rest@ =~= self@);
        while !rest.is_empty()
            invariant
                out@ + rest@ == self@,
            decreases *rest,
        {
            match rest {
                List::Nil => {},
                List::Cons(head, tail) => {
                    let ghost before = out@;
                    out.push(head.share());
                    proof {
                        assert(rest@ == seq![*head] + tail@);
                        assert(out@ + tail@ =~= before + rest@);
                    }
                    rest = tail;
                },
            }
        }
        assert(out@ + rest@ =~= out@);
        out
    }
}

/// Appending lists appends their elements.
pub proof fn lemma_appended_view<T>(first: &List<T>, second: &List<T>)
    ensures
        appended(*first, *second)@ == first@ + second@,
    decreases *first,
{
    match first {
        List::Nil => {
            assert(first@ + second@ =~= second@);
        },
        List::Cons(head, tail) => {
            lemma_appended_view(tail, second);
            assert(appended(*first, *second)@ == seq![*head] + appended(**tail, *second)@);
            assert(seq![*head] + (tail@ + second@) =~= (seq![*head] + tail@) + second@);
        },
    }
}

/// What is taken from a list and what is left of it are the list.
pub proof fn lemma_taken_dropped<T>(list: &List<T>, count: nat)
    ensures
        appended(taken(*list, count), dropped(*list, count)) == *list,
        count <= list@.len() ==> taken(*list, count)@ == list@.take(count as int),
        count <= list@.len() ==> dropped(*list, count)@ == list@.skip(count as int),
    decreases *list,
{
    match list {
        List::Nil => {
            if count <= list@.len() {
                assert(list@.take(count as int) =~= list@);
                assert(list@.skip(count as int) =~= list@);
            }
        },
        List::Cons(head, tail) => {
            assert(list@ == seq![*head] + tail@);
            if count == 0 {
                assert(list@.take(0) =~= Seq::<T>::empty());
                assert(list@.skip(0) =~= list@);
            } else {
                lemma_taken_dropped(tail, (count - 1) as nat);
                if count <= list@.len() {
                    assert(list@.take(count as int) =~= seq![*head] + tail@.take(count - 1));
                    assert(list@.skip(count as int) =~= tail@.skip(count - 1));
                }
            }
        },
    }
}

/// Lists with the same elements in the same order are equal.
pub proof fn lemma_view_injective<T>(first: &List<T>, second: &List<T>)
    requires
        first@ == second@,
    ensures
        *first == *second,
    decreases *first,
{
    match (first, second) {
        (List::Nil, List::Nil) => {},
        (List::Cons(h1, t1), List::Cons(h2, t2)) => {
            assert(first@[0] == h1 && second@[0] == h2);
            assert(first@.skip(1) =~= t1@);
            assert(second@.skip(1) =~= t2@);
            lemma_view_injective(t1, t2);
        },
        (List::Cons(_, tail), List::Nil) => {
            assert(first@.len() > 0);
        },
        (List::Nil, List::Cons(_, tail)) => {
            assert(second@.len() > 0);
        },
    }
}

} // verus!
