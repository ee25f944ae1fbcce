//! A persistent stack over a reference-counted chain of immutable nodes.
//! `prepend` and `tail` build a new stack in constant time by sharing the
//! existing chain: no node is ever copied or mutated, so any number of
//! stacks may hang onto a common suffix.

use std::rc::Rc;
use vstd::prelude::*;

verus! {

/// A shared link to the rest of a chain: either the next node, or the end.
type Link<T> = Option<Rc<Node<T>>>;

/// A persistent last-in-first-out stack. Every operation leaves the callee
/// untouched and returns a fresh stack that shares the old chain.
///
/// Its view is the sequence of elements from the head (index 0) down to the
/// last node of the chain.
pub struct List<T> {
    head: Link<T>,
}

struct Node<T> {
    elem: T,
    next: Link<T>,
}

/// The elements stored in the chain hanging off `link`, head first.
spec fn link_view<T>(link: Link<T>) -> Seq<T>
    decreases link,
{
    match link {
        None => Seq::empty(),
        Some(node) => seq![node.elem] + link_view(node.next),
    }
}

impl<T> View for List<T> {
    type V = Seq<T>;

    closed spec fn view(&self) -> Seq<T> {
        link_view(self.head)
    }
}

impl<T> Node<T> {
    fn new(elem: T, next: Link<T>) -> (r: Self)
        ensures
            r.elem == elem,
            r.next == next,
    {
        Node { elem, next }
    }
}

impl<T> List<T> {
    /// Returns the empty stack.
    pub fn new() -> (r: Self)
        ensures
            r@ == Seq::<T>::empty(),
    {
        List { head: None }
    }

    /// Returns a new stack with `elem` in front of everything in `self`.
    /// `self` is untouched and still usable: the new head node holds a
    /// second reference to the old chain rather than a copy of it.
    pub fn prepend(&self, elem: T) -> (r: Self)
        ensures
            r@ == seq![elem] + self@,
    {
        let next = match &self.head {
            None => None,
            Some(rc) => Some(rc.clone()),
        };
        List { head: Some(Rc::new(Node::new(elem, next))) }
    }

    /// Returns a reference to the head element, or signals absence on an
    /// empty stack.
    pub fn head(&self) -> (r: Option<&T>)
        ensures
            self@.len() == 0 ==> r is None,
            self@.len() > 0 ==> (r matches Some(e) && *e == self@[0]),
    {
        match &self.head {
            None => None,
            Some(rc) => Some(&rc.elem),
        }
    }

    /// Returns a new stack holding everything after the head of `self`, by
    /// sharing the existing nodes; the tail of an empty stack is empty.
    /// `self` is untouched and still usable.
    pub fn tail(&self) -> (r: Self)
        ensures
            self@.len() == 0 ==> r@ == Seq::<T>::empty(),
            self@.len() > 0 ==> r@ == self@.drop_first(),
    {
        let next = match &self.head {
            None => None,
            Some(rc) => match &rc.next {
                None => None,
                Some(n) => Some(n.clone()),
            },
        };
        List { head: next }
    }
}

} // verus!
