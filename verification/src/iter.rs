//! Forward traversals of a list: one that lends the elements and one that
//! hands them over.

use vstd::prelude::*;
use crate::node::{chain, release, Link, Node};

verus! {

/// A traversal that lends each element in turn and leaves the list as it is.
pub struct Iter<'a, T: 'a> {
    current: Option<&'a Node<T>>,
}

impl<'a, T> View for Iter<'a, T> {
    type V = Seq<T>;

    /// The elements that are still to come, next one first.
    closed spec fn view(&self) -> Seq<T> {
        match self.current {
            None => Seq::empty(),
            Some(node) => node.elements(),
        }
    }
}

impl<'a, T> Iter<'a, T> {
    /// A traversal of the chain that starts at `head`.
    pub(crate) fn over(head: &'a Link<T>) -> (iter: Self)
        ensures
            iter@ == chain(*head),
    {
        Iter {
            current: match head {
                None => None,
                Some(node) => Some(&**node),
            },
        }
    }

    /// Lends the next element, or reports with `None` that none is left.
    pub fn next(&mut self) -> (item: Option<&'a T>)
        ensures
            old(self)@.len() == 0 ==> item is None && final(self)@ == old(self)@,
            old(self)@.len() > 0 ==> item == Some(&old(self)@[0])
                && final(self)@ == old(self)@.drop_first(),
    {
        match self.current {
            None => None,
            Some(node) => {
                self.current = match &node.next {
                    None => None,
                    Some(next) => Some(&**next),
                };
                Some(&node.value)
            },
        }
    }
}

/// A traversal that owns the chain and hands out each element in turn.
pub struct IntoIter<T> {
    current: Link<T>,
}

impl<T> View for IntoIter<T> {
    type V = Seq<T>;

    /// The elements that are still to come, next one first.
    closed spec fn view(&self) -> Seq<T> {
        chain(self.current)
    }
}

impl<T> IntoIter<T> {
    /// A traversal that owns the chain that starts at `head`.
    pub(crate) fn over(head: Link<T>) -> (iter: Self)
        ensures
            iter@ == chain(head),
    {
        IntoIter { current: head }
    }

    /// Hands out the next element, or reports with `None` that none is left.
    pub fn next(&mut self) -> (item: Option<T>)
        ensures
            old(self)@.len() == 0 ==> item is None && final(self)@ == old(self)@,
            old(self)@.len() > 0 ==> item == Some(old(self)@[0])
                && final(self)@ == old(self)@.drop_first(),
    {
        match self.current.take() {
            None => None,
            Some(node) => {
                let node = *node;
                self.current = node.next;
                Some(node.value)
            },
        }
    }
}

impl<T> Drop for IntoIter<T> {
    /// Gives up the nodes that were not handed out, one after the other.
    fn drop(&mut self)
        opens_invariants none
        no_unwind
    {
        let mut rest: Link<T> = None;
        core::mem::swap(&mut rest, &mut self.current);
        release(rest);
    }
}

} // verus!
