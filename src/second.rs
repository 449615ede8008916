//! A generic stack with peeking and three traversals: consuming, by shared
//! reference and by mutable reference.

use vstd::prelude::*;
use crate::stack::{pushed, top, popped, replaced_top};

verus! {

/// A stack of `T` values; the first node is the top.
pub struct List<T> {
    head: Option<Box<Node<T>>>,
}

/// Hands out the stack's values by value, top first, emptying the stack.
pub struct IntoIter<T>(List<T>);

/// Walks the stack by shared reference, top first.
pub struct Iter<'a, T> {
    next: Option<&'a Node<T>>,
}

/// Walks the stack by mutable reference, top first; each value is handed out
/// once, and what is written through it stays in the stack.
pub struct IterMut<'a, T> {
    next: Option<&'a mut Node<T>>,
}

/// One link of the chain: a value and the rest of the chain behind it. Its
/// fields are private, so nodes are built and taken apart by the stack alone.
pub struct Node<T> {
    elem: T,
    next: Option<Box<Node<T>>>,
}

/// The values held by a chain of links, from the first node on.
spec fn link_view<T>(link: Option<Box<Node<T>>>) -> Seq<T>
    decreases link,
{
    match link {
        None => Seq::empty(),
        Some(node) => seq![node.elem] + link_view(node.next),
    }
}

/// The values held by a node and the chain behind it.
spec fn node_view<T>(node: Node<T>) -> Seq<T> {
    seq![node.elem] + link_view(node.next)
}

impl<T> View for List<T> {
    type V = Seq<T>;

    closed spec fn view(&self) -> Seq<T> {
        link_view(self.head)
    }
}

impl<T> View for IntoIter<T> {
    type V = Seq<T>;

    closed spec fn view(&self) -> Seq<T> {
        self.0@
    }
}

impl<'a, T> View for Iter<'a, T> {
    type V = Seq<T>;

    closed spec fn view(&self) -> Seq<T> {
        match self.next {
            None => Seq::empty(),
            Some(node) => node_view(*node),
        }
    }
}

impl<'a, T> View for IterMut<'a, T> {
    type V = Seq<T>;

    /// The values still to be handed out, as they are now.
    closed spec fn view(&self) -> Seq<T> {
        match self.next {
            None => Seq::empty(),
            Some(node) => node_view(*node),
        }
    }
}

impl<T> Node<T> {
    /// The values held by this node and the chain behind it.
    pub closed spec fn values(&self) -> Seq<T> {
        node_view(*self)
    }
}

impl<'a, T> IterMut<'a, T> {
    /// The node this traversal stands at, if any.
    pub closed spec fn cursor(&self) -> Option<&'a mut Node<T>> {
        self.next
    }

    /// Once a traversal is no longer used, the node it stands at keeps the
    /// values it holds now: stopping early leaves the values not yet handed
    /// out, and their number, as they are.
    pub proof fn lemma_resolved(self)
        requires
            has_resolved(self),
        ensures
            self.cursor() is Some ==> (*final(self.cursor()->0)).values() == self@,
    {
    }
}

impl<T> List<T> {
    /// An empty stack.
    pub fn new() -> (r: Self)
        ensures
            r@ == Seq::<T>::empty(),
    {
        List { head: None }
    }

    /// Puts `elem` on top.
    pub fn push(&mut self, elem: T)
        ensures
            final(self)@ == pushed(old(self)@, elem),
    {
        let new_node: Box<Node<T>> = Box::new(Node { elem: elem, next: self.head.take() });
        self.head = Some(new_node);
    }

    /// Removes the top and returns it; `None` on an empty stack.
    pub fn pop(&mut self) -> (r: Option<T>)
        ensures
            r == top(old(self)@),
            final(self)@ == popped(old(self)@),
    {
        match self.head.take() {
            None => None,
            Some(node) => {
                let node = *node;
                self.head = node.next;
                Some(node.elem)
            },
        }
    }

    /// A shared reference to the top, if any; the stack is left as it was.
    pub fn peek(&mut self) -> (r: Option<&T>)
        ensures
            final(self)@ == old(self)@,
            old(self)@.len() == 0 ==> r is None,
            old(self)@.len() > 0 ==> r is Some && *r->0 == old(self)@[0],
    {
        match &self.head {
            None => None,
            Some(node) => Some(&node.elem),
        }
    }

    /// A mutable reference to the top, if any; what is written through it
    /// becomes the new top.
    pub fn peek_mut(&mut self) -> (r: Option<&mut T>)
        ensures
            old(self)@.len() == 0 ==> r is None && final(self)@ == old(self)@,
            old(self)@.len() > 0 ==> r is Some && *r->0 == old(self)@[0] && final(self)@
                == replaced_top(old(self)@, *final(r->0)),
    {
        match self.head.as_mut() {
            None => None,
            Some(node) => Some(&mut node.elem),
        }
    }
}

impl<T> List<T> {
    /// A traversal that pops the stack's values one by one.
    pub fn into_iter(self) -> (r: IntoIter<T>)
        ensures
            r@ == self@,
    {
        IntoIter(self)
    }

    /// A traversal by shared reference over the values, top first.
    pub fn iter(&self) -> (r: Iter<'_, T>)
        ensures
            r@ == self@,
    {
        match &self.head {
            None => Iter { next: None },
            Some(node) => Iter { next: Some(&**node) },
        }
    }

    /// A traversal by mutable reference over the values, top first; once it
    /// ends, the stack holds what was written through it.
    pub fn iter_mut(&mut self) -> (r: IterMut<'_, T>)
        ensures
            r@ == old(self)@,
            r.cursor() is None <==> r@.len() == 0,
            final(self)@ == (match r.cursor() {
                None => Seq::empty(),
                Some(node) => (*final(node)).values(),
            }),
    {
        match self.head.as_mut() {
            None => IterMut { next: None },
            Some(node) => IterMut { next: Some(&mut **node) },
        }
    }
}

impl<T> IntoIter<T> {
    /// Pops the next value; `None` once the stack is empty.
    pub fn next(&mut self) -> (r: Option<T>)
        ensures
            r == top(old(self)@),
            final(self)@ == popped(old(self)@),
    {
        self.0.pop()
    }
}

impl<'a, T> Iter<'a, T> {
    /// A reference to the next value, if any, and a step past it.
    pub fn next(&mut self) -> (r: Option<&'a T>)
        ensures
            old(self)@.len() == 0 ==> r is None && final(self)@ == old(self)@,
            old(self)@.len() > 0 ==> r is Some && *r->0 == old(self)@[0] && final(self)@
                == old(self)@.drop_first(),
    {
        match self.next {
            None => None,
            Some(node) => {
                self.next =
                    match &node.next {
                        None => None,
                        Some(next) => Some(&**next),
                    };
                Some(&node.elem)
            },
        }
    }
}

impl<'a, T> IterMut<'a, T> {
    /// A mutable reference to the next value, if any, and a step past it;
    /// the reference is the only one to that value this traversal gives.
    pub fn next(&mut self) -> (r: Option<&'a mut T>)
        ensures
            old(self)@.len() == 0 ==> r is None && final(self)@ == old(self)@,
            final(self).cursor() is None <==> final(self)@.len() == 0,
            old(self)@.len() > 0 ==> r is Some && *r->0 == old(self)@[0] && final(self)@
                == old(self)@.drop_first(),
            old(self)@.len() > 0 ==> (*final(old(self).cursor()->0)).values() == seq![
                *final(r->0),
            ] + (match final(self).cursor() {
                None => Seq::empty(),
                Some(node) => (*final(node)).values(),
            }),
    {
        match self.next.take() {
            None => None,
            Some(node) => {
                self.next =
                    match node.next.as_mut() {
                        None => None,
                        Some(next) => Some(&mut **next),
                    };
                Some(&mut node.elem)
            },
        }
    }
}

/// Tears the chain down iteratively, so that a long stack does not recurse
/// once per node when it is destroyed.
impl<T> Drop for List<T> {
    fn drop(&mut self)
        ensures
            final(self)@ == Seq::<T>::empty(),
        opens_invariants none
        no_unwind
    {
        let mut cur_link: Option<Box<Node<T>>> = None;
        core::mem::swap(&mut self.head, &mut cur_link);
        loop
            decreases link_view(cur_link).len(),
        {
            match cur_link {
                None => {
                    break;
                },
                Some(boxed_node) => {
                    // Moving the link out first leaves the node owning
                    // nothing but its value when it goes.
                    let node = *boxed_node;
                    cur_link = node.next;
                },
            }
        }
    }
}

} // verus!
