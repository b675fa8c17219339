//! A stack of `i32` over a chain of boxed nodes.

use vstd::prelude::*;
use crate::lifo::{pushed, rest, top};

verus! {

enum Link {
    Empty,
    More(Box<Node>),
}

struct Node {
    elem: i32,
    next: Link,
}

/// A last-in-first-out stack of `i32`.
pub struct List {
    head: Link,
}

impl Link {
    /// The elements of the chain that starts at this link, nearest first.
    spec fn elems(self) -> Seq<i32>
        decreases self,
    {
        match self {
            Link::Empty => Seq::empty(),
            Link::More(node) => seq![node.elem] + node.next.elems(),
        }
    }
}

impl View for List {
    type V = Seq<i32>;

    /// The elements of the stack, the top at index 0.
    closed spec fn view(&self) -> Seq<i32> {
        self.head.elems()
    }
}

impl List {
    /// An empty stack.
    pub fn new() -> (list: Self)
        ensures
            list@ == Seq::<i32>::empty(),
    {
        List { head: Link::Empty }
    }

    /// Puts `elem` on top of the stack.
    pub fn push(&mut self, elem: i32)
        ensures
            final(self)@ == pushed(old(self)@, elem),
    {
        let mut tail = Link::Empty;
        core::mem::swap(&mut self.head, &mut tail);
        let new_node = Box::new(Node { elem: elem, next: tail });
        self.head = Link::More(new_node);
    }

    /// Takes the top element off the stack and returns it; `None` where the
    /// stack is empty, which then stays as it is.
    pub fn pop(&mut self) -> (result: Option<i32>)
        ensures
            result == top(old(self)@),
            final(self)@ == rest(old(self)@),
    {
        let mut taken = Link::Empty;
        core::mem::swap(&mut self.head, &mut taken);
        match taken {
            Link::Empty => None,
            Link::More(node) => {
                let node = *node;
                self.head = node.next;
                Some(node.elem)
            },
        }
    }
}

impl Drop for List {
    /// Unlinks the chain node by node, so that no node is dropped while it
    /// still owns a successor.
    fn drop(&mut self)
        ensures
            final(self)@ == Seq::<i32>::empty(),
        opens_invariants none
        no_unwind
    {
        let mut cur_link = Link::Empty;
        core::mem::swap(&mut self.head, &mut cur_link);
        loop
            invariant
                self.head.elems() == Seq::<i32>::empty(),
            decreases cur_link.elems().len(),
        {
            match cur_link {
                Link::Empty => {
                    break ;
                },
                Link::More(mut boxed_node) => {
                    cur_link = Link::Empty;
                    core::mem::swap(&mut boxed_node.next, &mut cur_link);
                },
            }
        }
    }
}

} // verus!
