//! The exclusively-owned stack extended with peeking and borrowed
//! iteration: a read-only traversal, a mutable traversal that can edit every
//! element in place, and a consuming traversal that drains the stack. The
//! chain and its teardown discipline are the same as in the plain stack.

use vstd::prelude::*;

verus! {

/// A link to the rest of a chain: either the next node, or the end.
type Maybe<T> = Option<Box<Node<T>>>;

/// A last-in-first-out stack over an exclusively-owned chain of nodes, with
/// peek accessors and borrowed traversals.
///
/// Its view is the sequence of elements from the top of the stack (index 0)
/// down to the bottom.
pub struct List<T> {
    head: Maybe<T>,
}

/// One node of a chain. It is public only so that the contracts of the
/// mutable traversal can speak of the chain a traversal still holds; code
/// outside this module can neither build one nor look inside one.
pub struct Node<T> {
    elem: T,
    next: Maybe<T>,
}

/// The elements stored in the chain hanging off `link`, top first.
spec fn link_view<T>(link: Maybe<T>) -> Seq<T>
    decreases link,
{
    match link {
        None => Seq::empty(),
        Some(node) => seq![node.elem] + link_view(node.next),
    }
}

impl<T> View for List<T> {
    type V = Seq<T>;

    closed spec fn view(&self) -> Seq<T> {
        link_view(self.head)
    }
}

impl<T> Node<T> {
    /// The elements of the chain that starts at this node, top first.
    pub closed spec fn chain(self) -> Seq<T> {
        seq![self.elem] + link_view(self.next)
    }

    fn new(elem: T, next: Maybe<T>) -> (r: Self)
        ensures
            r.elem == elem,
            r.next == next,
    {
        Node { elem, next }
    }
}

impl<T> List<T> {
    /// Returns the empty stack.
    pub fn new() -> (r: Self)
        ensures
            r@ == Seq::<T>::empty(),
    {
        List { head: None }
    }

    /// Pushes `elem` on top of the stack.
    pub fn push(&mut self, elem: T)
        ensures
            final(self)@ == seq![elem] + old(self)@,
    {
        let node = Node::new(elem, self.head.take());
        self.head = Some(Box::new(node))
    }

    /// Removes and returns the top element, or signals absence on an empty
    /// stack, which it leaves unchanged.
    pub fn pop(&mut self) -> (r: Option<T>)
        ensures
            old(self)@.len() == 0 ==> r is None && final(self)@ == old(self)@,
            old(self)@.len() > 0 ==> r == Some(old(self)@[0]) && final(self)@ == old(self)@.drop_first(),
    {
        match self.head.take() {
            None => None,
            Some(node) => {
                let node = *node;
                self.head = node.next;
                Some(node.elem)
            }
        }
    }

    /// Returns a reference to the top element without removing it, or
    /// signals absence on an empty stack.
    pub fn peek(&self) -> (r: Option<&T>)
        ensures
            self@.len() == 0 ==> r is None,
            self@.len() > 0 ==> (r matches Some(e) && *e == self@[0]),
    {
        match &self.head {
            None => None,
            Some(node) => Some(&node.elem),
        }
    }

    /// Returns a mutable reference to the top element, or signals absence
    /// on an empty stack. Writing through the reference replaces the top
    /// element in place and changes nothing else.
    pub fn peek_mut(&mut self) -> (r: Option<&mut T>)
        ensures
            old(self)@.len() == 0 ==> r is None && final(self)@ == old(self)@,
            old(self)@.len() > 0 ==> (r matches Some(e) && *e == old(self)@[0]
                && final(self)@ == old(self)@.update(0, *final(e))),
    {
        match &mut self.head {
            None => None,
            Some(node) => Some(&mut node.elem),
        }
    }

    /// Starts a fresh read-only traversal from the current top. The stack
    /// is only borrowed: it is left exactly as it was.
    pub fn iter(&self) -> (it: Iter<'_, T>)
        ensures
            it.remaining() == self@,
    {
        Iter {
            next: match &self.head {
                None => None,
                Some(node) => Some(&**node),
            },
        }
    }

    /// Starts a fresh mutable traversal from the current top. The stack is
    /// borrowed exclusively: until the traversal ends, nothing else may
    /// read or change the stack, and when it ends the stack holds exactly
    /// the values the caller wrote through it, in place.
    pub fn iter_mut(&mut self) -> (it: IterMut<'_, T>)
        ensures
            it.remaining() == old(self)@,
            it.link() is None ==> final(self)@ == Seq::<T>::empty(),
            it.link() matches Some(node) ==> final(self)@ == (*final(node)).chain(),
    {
        IterMut {
            next: match &mut self.head {
                None => None,
                Some(node) => Some(&mut **node),
            },
        }
    }

    /// One step of the consuming traversal: removes and returns the top
    /// element, or signals absence once the stack has been drained. Calling
    /// this until absence behaves exactly like calling `pop` until absence.
    pub fn next(&mut self) -> (r: Option<T>)
        ensures
            old(self)@.len() == 0 ==> r is None && final(self)@ == old(self)@,
            old(self)@.len() > 0 ==> r == Some(old(self)@[0]) && final(self)@ == old(self)@.drop_first(),
    {
        self.pop()
    }
}

/// A read-only traversal of a stack, top to bottom. It borrows the stack,
/// yields a reference to each element in turn, and leaves the stack as it
/// was; `iter` can start any number of such traversals.
pub struct Iter<'a, T> {
    next: Option<&'a Node<T>>,
}

impl<'a, T> Iter<'a, T> {
    /// The elements the traversal has still to yield, in order.
    pub closed spec fn remaining(self) -> Seq<T> {
        match self.next {
            None => Seq::empty(),
            Some(node) => seq![node.elem] + link_view(node.next),
        }
    }

    /// Yields a reference to the next element, or signals absence once the
    /// traversal has passed the bottom of the stack.
    pub fn next(&mut self) -> (r: Option<&'a T>)
        ensures
            old(self).remaining().len() == 0 ==> r is None
                && final(self).remaining() == old(self).remaining(),
            old(self).remaining().len() > 0 ==> (r matches Some(e)
                && *e == old(self).remaining()[0]
                && final(self).remaining() == old(self).remaining().drop_first()),
    {
        match self.next {
            None => None,
            Some(node) => {
                self.next = match &node.next {
                    None => None,
                    Some(b) => Some(&**b),
                };
                Some(&node.elem)
            }
        }
    }
}

/// A mutable traversal of a stack, top to bottom. It borrows the stack
/// exclusively for its lifetime, yields a mutable reference to each element
/// in turn, and so permits in-place edits of every element in a single
/// pass; the structure of the stack is never changed through it.
pub struct IterMut<'a, T> {
    next: Option<&'a mut Node<T>>,
}

impl<'a, T> IterMut<'a, T> {
    /// The part of the chain the traversal has still to walk.
    pub closed spec fn link(self) -> Option<&'a mut Node<T>> {
        self.next
    }

    /// The values currently held by the elements the traversal has still
    /// to yield, in order.
    pub closed spec fn remaining(self) -> Seq<T> {
        match self.next {
            None => Seq::empty(),
            Some(node) => (*node).chain(),
        }
    }

    /// Yields a mutable reference to the next element, or signals absence
    /// once the traversal has passed the bottom of the stack. Whatever the
    /// caller writes through the reference becomes that element's value in
    /// the stack; nothing else changes: the chain the traversal still holds
    /// will carry the yielded element's final value in front of whatever
    /// the rest of the traversal writes.
    pub fn next(&mut self) -> (r: Option<&'a mut T>)
        ensures
            old(self).remaining().len() == 0 ==> r is None
                && old(self).link() is None && final(self).link() is None,
            old(self).remaining().len() > 0 ==> (r matches Some(e)
                && *e == old(self).remaining()[0]
                && final(self).remaining() == old(self).remaining().drop_first()
                && (old(self).link() matches Some(node)
                    && (*final(node)).chain() == seq![*final(e)] + (match final(self).link() {
                        None => Seq::<T>::empty(),
                        Some(node2) => (*final(node2)).chain(),
                    }))),
    {
        let taken = self.next.take();
        match taken {
            None => None,
            Some(node) => {
                self.next = match &mut node.next {
                    None => None,
                    Some(b) => Some(&mut **b),
                };
                Some(&mut node.elem)
            }
        }
    }

    /// Once nothing will write through the traversal any more, the
    /// elements it still holds keep their current values: abandoning a
    /// traversal midway leaves the rest of the stack as it stands.
    pub proof fn lemma_abandoned(self)
        requires
            has_resolved(self),
        ensures
            self.link() is None ==> self.remaining() == Seq::<T>::empty(),
            self.link() matches Some(node) ==> (*final(node)).chain() == self.remaining(),
    {
        assert(has_resolved(self.next));
        match self.next {
            Some(n) => {
                assert(has_resolved(n));
                assert(*n == *final(n));
            }
            None => {}
        }
    }
}

/// Peek/mutate consistency: a write of `v` through `peek_mut` turns a stack
/// view `s` into `s.update(0, v)`, so a `peek` that follows returns `v`, a
/// `pop` that follows returns `v` too, and the elements below the top are
/// untouched.
pub proof fn lemma_peek_mut_write<T>(s: Seq<T>, v: T)
    requires
        s.len() > 0,
    ensures
        s.update(0, v)[0] == v,
        s.update(0, v).drop_first() == s.drop_first(),
{
    assert(s.update(0, v).drop_first() =~= s.drop_first());
}

impl<T> Drop for List<T> {
    /// Tears the chain down iteratively, so that dropping a long stack uses
    /// only constant additional call depth.
    fn drop(&mut self)
        opens_invariants none
        no_unwind
    {
        let mut maybe: Maybe<T> = None;
        core::mem::swap(&mut maybe, &mut self.head);
        loop
            decreases link_view(maybe).len(),
        {
            let mut taken: Maybe<T> = None;
            core::mem::swap(&mut taken, &mut maybe);
            match taken {
                None => {
                    break;
                }
                Some(node) => {
                    let mut node = *node;
                    core::mem::swap(&mut maybe, &mut node.next);
                }
            }
        }
    }
}

} // verus!
