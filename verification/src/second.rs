//! A stack of any element type over a chain of boxed nodes, with access to
//! the top in place and a draining iterator.

use vstd::prelude::*;
use crate::lifo::{pushed, rest, retopped, top};

verus! {

type Link<T> = Option<Box<Node<T>>>;

struct Node<T> {
    elem: T,
    next: Link<T>,
}

/// A last-in-first-out stack of `T`.
pub struct List<T> {
    head: Link<T>,
}

/// Hands out the elements of a [`List`] from the top down, owning the list
/// while it does.
pub struct IntoIter<T>(List<T>);

/// The elements of the chain that starts at `link`, nearest first.
spec fn elems<T>(link: Link<T>) -> Seq<T>
    decreases link,
{
    match link {
        None => Seq::empty(),
        Some(node) => seq![node.elem] + elems(node.next),
    }
}

impl<T> View for List<T> {
    type V = Seq<T>;

    /// The elements of the stack, the top at index 0.
    closed spec fn view(&self) -> Seq<T> {
        elems(self.head)
    }
}

impl<T> View for IntoIter<T> {
    type V = Seq<T>;

    /// The elements still to come, the next one at index 0.
    closed spec fn view(&self) -> Seq<T> {
        self.0@
    }
}

impl<T> List<T> {
    /// An empty stack.
    pub fn new() -> (list: Self)
        ensures
            list@ == Seq::<T>::empty(),
    {
        List { head: None }
    }

    /// Puts `elem` on top of the stack.
    pub fn push(&mut self, elem: T)
        ensures
            final(self)@ == pushed(old(self)@, elem),
    {
        let new_node = Box::new(Node { elem: elem, next: self.head.take() });
        self.head = Some(new_node);
    }

    /// Takes the top element off the stack and returns it; `None` where the
    /// stack is empty, which then stays as it is.
    pub fn pop(&mut self) -> (result: Option<T>)
        ensures
            result == top(old(self)@),
            final(self)@ == rest(old(self)@),
    {
        match self.head.take() {
            None => None,
            Some(node) => {
                let node = *node;
                self.head = node.next;
                Some(node.elem)
            },
        }
    }

    /// The top element, left in place; `None` where the stack is empty.
    pub fn peek(&self) -> (result: Option<&T>)
        ensures
            match result {
                Some(elem) => top(self@) == Some(*elem),
                None => top(self@) is None,
            },
    {
        match &self.head {
            None => None,
            Some(node) => Some(&node.elem),
        }
    }

    /// The top element, open to change in place; `None` where the stack is
    /// empty. Whatever the caller leaves behind the reference is the new top,
    /// and nothing below it changes.
    pub fn peek_mut(&mut self) -> (result: Option<&mut T>)
        ensures
            match result {
                Some(elem) => top(old(self)@) == Some(*elem)
                    && final(self)@ == retopped(old(self)@, *final(elem)),
                None => top(old(self)@) is None && final(self)@ == old(self)@,
            },
    {
        match &mut self.head {
            None => None,
            Some(node) => Some(&mut node.elem),
        }
    }

    /// Turns the stack into an iterator that hands its elements out from the
    /// top down.
    pub fn into_iter(self) -> (iter: IntoIter<T>)
        ensures
            iter@ == self@,
    {
        IntoIter(self)
    }
}

impl<T> IntoIter<T> {
    /// The next element, which is the top of what is left; `None` once
    /// nothing is left, and from then on.
    pub fn next(&mut self) -> (result: Option<T>)
        ensures
            result == top(old(self)@),
            final(self)@ == rest(old(self)@),
    {
        self.0.pop()
    }
}

impl<T> Drop for List<T> {
    /// Unlinks the chain node by node, so that no node is dropped while it
    /// still owns a successor.
    fn drop(&mut self)
        ensures
            final(self)@ == Seq::<T>::empty(),
        opens_invariants none
        no_unwind
    {
        let mut cur_link: Link<T> = None;
        core::mem::swap(&mut self.head, &mut cur_link);
        loop
            invariant
                elems(self.head) == Seq::<T>::empty(),
            decreases elems(cur_link).len(),
        {
            match cur_link {
                None => {
                    break ;
                },
                Some(mut boxed_node) => {
                    cur_link = None;
                    core::mem::swap(&mut boxed_node.next, &mut cur_link);
                },
            }
        }
    }
}

} // verus!
