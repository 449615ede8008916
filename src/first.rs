//! A stack of `i32` values built from an explicit link enum.

use vstd::prelude::*;
use crate::stack::{pushed, top, popped};

verus! {

/// A stack of `i32` values; the first node is the top.
pub struct List {
    head: Link,
}

enum Link {
    Empty,
    More(Box<Node>),
}

struct Node {
    elem: i32,
    next: Link,
}

/// The values held by a chain of links, from the first node on.
spec fn link_view(link: Link) -> Seq<i32>
    decreases link,
{
    match link {
        Link::Empty => Seq::empty(),
        Link::More(node) => seq![node.elem] + link_view(node.next),
    }
}

impl View for List {
    type V = Seq<i32>;

    closed spec fn view(&self) -> Seq<i32> {
        link_view(self.head)
    }
}

impl List {
    /// An empty stack.
    pub fn new() -> (r: Self)
        ensures
            r@ == Seq::<i32>::empty(),
    {
        List { head: Link::Empty }
    }

    /// Puts `elem` on top.
    pub fn push(&mut self, elem: i32)
        ensures
            final(self)@ == pushed(old(self)@, elem),
    {
        let mut rest = Link::Empty;
        core::mem::swap(&mut self.head, &mut rest);
        let new_node = Box::new(Node { elem: elem, next: rest });
        self.head = Link::More(new_node);
    }

    /// Removes the top and returns it; `None` on an empty stack.
    pub fn pop(&mut self) -> (r: Option<i32>)
        ensures
            r == top(old(self)@),
            final(self)@ == popped(old(self)@),
    {
        let mut taken = Link::Empty;
        core::mem::swap(&mut self.head, &mut taken);
        match taken {
            Link::Empty => None,
            Link::More(node) => {
                self.head = node.next;
                Some(node.elem)
            },
        }
    }
}

/// Tears the chain down one node at a time, so that a long stack does not
/// recurse once per node when it is destroyed.
impl Drop for List {
    fn drop(&mut self)
        ensures
            final(self)@ == Seq::<i32>::empty(),
        opens_invariants none
        no_unwind
    {
        let mut cur_link = Link::Empty;
        core::mem::swap(&mut self.head, &mut cur_link);
        loop
            decreases link_view(cur_link).len(),
        {
            match cur_link {
                Link::Empty => {
                    break;
                },
                Link::More(mut boxed_node) => {
                    let mut next = Link::Empty;
                    core::mem::swap(&mut boxed_node.next, &mut next);
                    cur_link = next;
                },
            }
        }
    }
}

} // verus!
