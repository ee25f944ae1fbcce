//! An exclusively-owned stack: each node owns the next one outright, and the
//! stack owns the head. Teardown walks the chain iteratively so that dropping
//! a long stack never recurses to a depth proportional to its length.

use vstd::prelude::*;

verus! {

/// A link to the rest of a chain: either the next node, or the end.
type Maybe<T> = Option<Box<Node<T>>>;

/// A last-in-first-out stack over an exclusively-owned chain of nodes.
///
/// Its view is the sequence of elements from the top of the stack (index 0)
/// down to the bottom.
pub struct List<T> {
    head: Maybe<T>,
}

struct Node<T> {
    elem: T,
    next: Maybe<T>,
}

/// The elements stored in the chain hanging off `link`, top first.
spec fn link_view<T>(link: Maybe<T>) -> Seq<T>
    decreases link,
{
    match link {
        None => Seq::empty(),
        Some(node) => seq![node.elem] + link_view(node.next),
    }
}

impl<T> View for List<T> {
    type V = Seq<T>;

    closed spec fn view(&self) -> Seq<T> {
        link_view(self.head)
    }
}

impl<T> Node<T> {
    fn new(elem: T, next: Maybe<T>) -> (r: Self)
        ensures
            r.elem == elem,
            r.next == next,
    {
        Node { elem, next }
    }
}

impl<T> List<T> {
    /// Returns the empty stack.
    pub fn new() -> (r: Self)
        ensures
            r@ == Seq::<T>::empty(),
    {
        List { head: None }
    }

    /// Pushes `elem` on top of the stack.
    pub fn push(&mut self, elem: T)
        ensures
            final(self)@ == seq![elem] + old(self)@,
    {
        let prev = self.head.take();
        let new = Node::new(elem, prev);
        self.head = Some(Box::new(new))
    }

    /// Removes and returns the top element, or signals absence on an empty
    /// stack, which it leaves unchanged.
    pub fn pop(&mut self) -> (r: Option<T>)
        ensures
            old(self)@.len() == 0 ==> r is None && final(self)@ == old(self)@,
            old(self)@.len() > 0 ==> r == Some(old(self)@[0]) && final(self)@ == old(self)@.drop_first(),
    {
        match self.head.take() {
            None => None,
            Some(node) => {
                let node = *node;
                self.head = node.next;
                Some(node.elem)
            }
        }
    }
}

/// The view a stack reaches when the elements of `elems` are pushed in
/// order onto a stack whose view is `v`: each push puts its element at the
/// front, as `push` ensures.
pub open spec fn pushed_onto<T>(v: Seq<T>, elems: Seq<T>) -> Seq<T>
    decreases elems.len(),
{
    if elems.len() == 0 {
        v
    } else {
        pushed_onto(seq![elems[0]] + v, elems.drop_first())
    }
}

/// Pushing `elems` in order onto a stack of view `v` stacks them up in
/// reverse in front of `v`.
proof fn lemma_pushed_onto<T>(v: Seq<T>, elems: Seq<T>)
    ensures
        pushed_onto(v, elems) == elems.reverse() + v,
    decreases elems.len(),
{
    if elems.len() == 0 {
        assert(pushed_onto(v, elems) =~= elems.reverse() + v);
    } else {
        lemma_pushed_onto(seq![elems[0]] + v, elems.drop_first());
        assert(elems.drop_first().reverse() + (seq![elems[0]] + v) =~= elems.reverse() + v);
    }
}

/// Last in, first out: pushing `elems` in order onto the empty stack yields
/// the view `elems.reverse()`, so the pops that follow return the pushed
/// elements newest first — `pop` returns index 0 of the view and drops it —
/// and signal absence once all of them are gone.
pub proof fn lemma_lifo_order<T>(elems: Seq<T>)
    ensures
        pushed_onto(Seq::<T>::empty(), elems) == elems.reverse(),
{
    lemma_pushed_onto(Seq::<T>::empty(), elems);
    assert(elems.reverse() + Seq::<T>::empty() =~= elems.reverse());
}

impl<T> Drop for List<T> {
    /// Tears the chain down iteratively, so that dropping a long stack uses
    /// only constant additional call depth.
    fn drop(&mut self)
        opens_invariants none
        no_unwind
    {
        let mut maybe: Maybe<T> = None;
        core::mem::swap(&mut maybe, &mut self.head);
        loop
            decreases link_view(maybe).len(),
        {
            let mut taken: Maybe<T> = None;
            core::mem::swap(&mut taken, &mut maybe);
            match taken {
                None => {
                    break;
                }
                Some(node) => {
                    let mut node = *node;
                    core::mem::swap(&mut maybe, &mut node.next);
                }
            }
        }
    }
}

} // verus!
