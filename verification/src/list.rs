//! The list itself.

use vstd::prelude::*;
use crate::iter::{IntoIter, Iter};
use crate::text::{bracket, bracketed, debug_text, texts};
use crate::node::{chain, release, Link, Node};

verus! {

/// A singly linked list. Its view is the sequence of its elements, first to last.
pub struct LinkedList<T> {
    len: usize,
    head: Link<T>,
}

impl<T> View for LinkedList<T> {
    type V = Seq<T>;

    closed spec fn view(&self) -> Seq<T> {
        chain(self.head)
    }
}

impl<T> LinkedList<T> {
    /// The stored count is the number of nodes on the chain.
    pub closed spec fn well_formed(&self) -> bool {
        self.len == chain(self.head).len()
    }

    /// An empty list.
    pub fn new() -> (list: Self)
        ensures
            list.well_formed(),
            list@ == Seq::<T>::empty(),
    {
        LinkedList { head: None, len: 0 }
    }

    /// The number of elements.
    pub fn len(&self) -> (n: usize)
        requires
            self.well_formed(),
        ensures
            n == self@.len(),
    {
        self.len
    }

    /// Cuts the list in two before position `at`: the elements from `at` on
    /// leave with the returned list, the ones before it stay.
    pub fn split_off(&mut self, at: usize) -> (rest: Self)
        requires
            old(self).well_formed(),
            at <= old(self)@.len(),
        ensures
            final(self).well_formed(),
            rest.well_formed(),
            final(self)@ == old(self)@.subrange(0, at as int),
            rest@ == old(self)@.subrange(at as int, old(self)@.len() as int),
            at == 0 ==> final(self)@ == Seq::<T>::empty() && rest@ == old(self)@,
            at == old(self)@.len() ==> final(self)@ == old(self)@ && rest@ == Seq::<T>::empty(),
    {
        if at == 0 {
            let len = self.len;
            self.len = 0;
            let rest = LinkedList { len, head: self.head.take() };
            return rest;
        }
        if at == self.len {
            return Self::new();
        }
        let rest_len = self.len - at;
        self.len = at;

        let mut i: usize = 0;
        let mut new_tail = self.head.as_mut().unwrap();
        let ghost mut before: Seq<T> = Seq::empty();
        while i < at - 1
            invariant
                0 < at < old(self)@.len(),
                i <= at - 1,
                before.len() == i,
                before + new_tail.elements() == old(self)@,
                after_borrow(self).len == at,
                chain(after_borrow(self).head) == before + final(new_tail).elements(),
            decreases at - i,
        {
            proof {
                before = before.push(new_tail.value);
            }
            new_tail = new_tail.next.as_mut().unwrap();
            i += 1;
        }
        let rest = Self { len: rest_len, head: new_tail.next.take() };
        rest
    }

    /// Puts `value` at position `at`; the elements from `at` on move one place
    /// towards the back.
    pub fn insert(&mut self, value: T, at: usize)
        requires
            old(self).well_formed(),
            at <= old(self)@.len(),
            old(self)@.len() < usize::MAX,
        ensures
            final(self).well_formed(),
            final(self)@ == old(self)@.insert(at as int, value),
    {
        if at == 0 {
            self.push_front(value);
            return;
        }
        self.len += 1;

        let mut i: usize = 0;
        let mut current = self.head.as_mut().unwrap();
        let ghost mut before: Seq<T> = Seq::empty();
        while i < at - 1
            invariant
                0 < at <= old(self)@.len(),
                i <= at - 1,
                before.len() == i,
                before + current.elements() == old(self)@,
                after_borrow(self).len == old(self)@.len() + 1,
                chain(after_borrow(self).head) == before + final(current).elements(),
            decreases at - i,
        {
            proof {
                before = before.push(current.value);
            }
            current = current.next.as_mut().unwrap();
            i += 1;
        }
        let ghost after = chain(current.next);
        current.next = Some(Box::new(Node { value, next: current.next.take() }));
        proof {
            assert(chain(current.next) =~= seq![value] + after);
        }
    }

    /// Takes out the element at position `at`; the elements after it move one
    /// place towards the front.
    pub fn remove(&mut self, at: usize) -> (value: T)
        requires
            old(self).well_formed(),
            at < old(self)@.len(),
        ensures
            final(self).well_formed(),
            value == old(self)@[at as int],
            final(self)@ == old(self)@.remove(at as int),
    {
        if at == 0 {
            let value = self.pop_front().unwrap();
            return value;
        }
        self.len -= 1;

        let mut i: usize = 0;
        let mut current = self.head.as_mut().unwrap();
        let ghost mut before: Seq<T> = Seq::empty();
        while i < at - 1
            invariant
                0 < at < old(self)@.len(),
                i <= at - 1,
                before.len() == i,
                before + current.elements() == old(self)@,
                after_borrow(self).len == old(self)@.len() - 1,
                chain(after_borrow(self).head) == before + final(current).elements(),
            decreases at - i,
        {
            proof {
                before = before.push(current.value);
            }
            current = current.next.as_mut().unwrap();
            i += 1;
        }
        assert(chain(current.next).len() > 0);
        let mut node = current.next.take().unwrap();
        current.next = node.next.take();
        node.value
    }

    /// Puts `value` before every other element.
    pub fn push_front(&mut self, value: T)
        requires
            old(self).well_formed(),
            old(self)@.len() < usize::MAX,
        ensures
            final(self).well_formed(),
            final(self)@ == seq![value] + old(self)@,
    {
        self.len += 1;
        self.head = Some(Box::new(Node { value, next: self.head.take() }));
    }

    /// Takes out the first element, or reports with `None` that the list is
    /// empty.
    pub fn pop_front(&mut self) -> (value: Option<T>)
        requires
            old(self).well_formed(),
        ensures
            final(self).well_formed(),
            old(self)@.len() == 0 ==> value is None && final(self)@ == old(self)@,
            old(self)@.len() > 0 ==> value == Some(old(self)@[0])
                && final(self)@ == old(self)@.drop_first(),
    {
        match self.head.take() {
            None => None,
            Some(mut node) => {
                self.len -= 1;
                self.head = node.next.take();
                Some(node.value)
            },
        }
    }

    /// Puts `value` after every other element.
    pub fn push_back(&mut self, value: T)
        requires
            old(self).well_formed(),
            old(self)@.len() < usize::MAX,
        ensures
            final(self).well_formed(),
            final(self)@ == old(self)@.push(value),
    {
        self.len += 1;
        let node = Some(Box::new(Node { value, next: None }));

        match self.head.as_mut() {
            None => {
                self.head = node;
            },
            Some(mut tail) => {
                let ghost mut before: Seq<T> = Seq::empty();
                while tail.next.is_some()
                    invariant
                        before + tail.elements() == old(self)@,
                        after_borrow(self).len == old(self)@.len() + 1,
                        chain(after_borrow(self).head) == before + final(tail).elements(),
                    decreases tail.elements().len(),
                {
                    proof {
                        before = before.push(tail.value);
                    }
                    tail = tail.next.as_mut().unwrap();
                }
                tail.next = node;
                proof {
                    assert(chain(node) =~= seq![value]);
                }
            },
        }
    }

    /// Takes out the last element, or reports with `None` that the list is
    /// empty.
    pub fn pop_back(&mut self) -> (value: Option<T>)
        requires
            old(self).well_formed(),
        ensures
            final(self).well_formed(),
            old(self)@.len() == 0 ==> value is None && final(self)@ == old(self)@,
            old(self)@.len() > 0 ==> value == Some(old(self)@.last())
                && final(self)@ == old(self)@.drop_last(),
    {
        if self.head.is_none() {
            return None;
        }
        self.len -= 1;
        if self.head.as_ref().unwrap().next.is_none() {
            let node = self.head.take().unwrap();
            proof {
                assert(self@ =~= old(self)@.drop_last());
            }
            return Some(node.value);
        }
        let mut current = self.head.as_mut().unwrap();
        let ghost mut before: Seq<T> = Seq::empty();
        while current.next.as_ref().unwrap().next.is_some()
            invariant
                current.next is Some,
                before + current.elements() == old(self)@,
                after_borrow(self).len == old(self)@.len() - 1,
                chain(after_borrow(self).head) == before + final(current).elements(),
            decreases current.elements().len(),
        {
            proof {
                before = before.push(current.value);
            }
            current = current.next.as_mut().unwrap();
        }
        let node = current.next.take().unwrap();
        proof {
            assert(chain(Some(node)) =~= seq![node.value]);
        }
        Some(node.value)
    }

    /// Moves every element of `other` to the end of this list, in order, and
    /// leaves `other` empty.
    pub fn append(&mut self, other: &mut LinkedList<T>)
        requires
            old(self).well_formed(),
            old(other).well_formed(),
            old(self)@.len() + old(other)@.len() <= usize::MAX,
        ensures
            final(self).well_formed(),
            final(other).well_formed(),
            final(self)@ == old(self)@ + old(other)@,
            final(other)@ == Seq::<T>::empty(),
    {
        self.len += other.len;
        other.len = 0;

        match self.head.as_mut() {
            None => {
                self.head = other.head.take();
            },
            Some(mut tail) => {
                let ghost mut before: Seq<T> = Seq::empty();
                while tail.next.is_some()
                    invariant
                        before + tail.elements() == old(self)@,
                        after_borrow(self).len == old(self)@.len() + old(other)@.len(),
                        chain(after_borrow(self).head) == before + final(tail).elements(),
                    decreases tail.elements().len(),
                {
                    proof {
                        before = before.push(tail.value);
                    }
                    tail = tail.next.as_mut().unwrap();
                }
                tail.next = other.head.take();
            },
        }
    }

    /// The first element of the list, if it has one.
    pub open spec fn spec_front(&self) -> Option<&T> {
        if self@.len() == 0 {
            None
        } else {
            Some(&self@[0])
        }
    }

    /// The last element of the list, if it has one.
    pub open spec fn spec_back(&self) -> Option<&T> {
        if self@.len() == 0 {
            None
        } else {
            Some(&self@.last())
        }
    }

    /// Lends the first element, or reports with `None` that the list is empty.
    pub fn front(&self) -> (value: Option<&T>)
        ensures
            value == self.spec_front(),
    {
        match &self.head {
            None => None,
            Some(node) => Some(&node.value),
        }
    }

    /// Lends the first element for writing, or reports with `None` that the
    /// list is empty. What is written through the reference is what the list
    /// holds at the front afterwards.
    pub fn front_mut(&mut self) -> (value: Option<&mut T>)
        requires
            old(self).well_formed(),
        ensures
            final(self).well_formed(),
            old(self)@.len() == 0 ==> value is None && final(self)@ == old(self)@,
            old(self)@.len() > 0 ==> value is Some && *value.unwrap() == old(self)@[0]
                && final(self)@ == old(self)@.update(0, *final(value.unwrap())),
    {
        match &mut self.head {
            None => None,
            Some(node) => {
                Some(&mut node.value)
            },
        }
    }

    /// Lends the last element, or reports with `None` that the list is empty.
    pub fn back(&self) -> (value: Option<&T>)
        ensures
            value == self.spec_back(),
    {
        match &self.head {
            None => None,
            Some(head) => {
                let mut tail: &Box<Node<T>> = head;
                let ghost mut before: Seq<T> = Seq::empty();
                while tail.next.is_some()
                    invariant
                        before + tail.elements() == self@,
                    decreases tail.elements().len(),
                {
                    proof {
                        before = before.push(tail.value);
                    }
                    tail = tail.next.as_ref().unwrap();
                }
                Some(&tail.value)
            },
        }
    }

    /// Lends the last element for writing, or reports with `None` that the
    /// list is empty. What is written through the reference is what the list
    /// holds at the back afterwards.
    pub fn back_mut(&mut self) -> (value: Option<&mut T>)
        requires
            old(self).well_formed(),
        ensures
            final(self).well_formed(),
            old(self)@.len() == 0 ==> value is None && final(self)@ == old(self)@,
            old(self)@.len() > 0 ==> value is Some && *value.unwrap() == old(self)@.last()
                && final(self)@ == old(self)@.update(old(self)@.len() - 1, *final(value.unwrap())),
    {
        match self.head.as_mut() {
            None => None,
            Some(mut tail) => {
                let ghost mut before: Seq<T> = Seq::empty();
                while tail.next.is_some()
                    invariant
                        before + tail.elements() == old(self)@,
                        after_borrow(self).len == old(self)@.len(),
                        chain(after_borrow(self).head) == before + final(tail).elements(),
                    decreases tail.elements().len(),
                {
                    proof {
                        before = before.push(tail.value);
                    }
                    tail = tail.next.as_mut().unwrap();
                }
                Some(&mut tail.value)
            },
        }
    }

    /// The list as text: the `Debug` text of each element, in list order,
    /// between square brackets and separated by a comma and a space.
    pub fn debug_string(&self) -> (text: String) where T: core::fmt::Debug
        ensures
            exists|entries: Seq<Seq<char>>|
                entries.len() == self@.len() && text@ == bracketed(entries),
    {
        let mut entries: Vec<String> = Vec::new();
        let mut iter = self.iter();
        loop
            invariant
                entries@.len() + iter@.len() == self@.len(),
            ensures
                entries@.len() == self@.len(),
            decreases iter@.len(),
        {
            match iter.next() {
                None => {
                    break;
                },
                Some(value) => {
                    entries.push(debug_text(value));
                },
            }
        }
        bracket(&entries)
    }

    /// A traversal that lends the elements from first to last.
    pub fn iter(&self) -> (iter: Iter<'_, T>)
        ensures
            iter@ == self@,
    {
        Iter::over(&self.head)
    }

    /// Gives the list up for a traversal that hands out the elements from
    /// first to last.
    pub fn into_iter(self) -> (iter: IntoIter<T>)
        ensures
            iter@ == self@,
    {
        let mut list = self;
        IntoIter::over(list.head.take())
    }
}

impl<T> Drop for LinkedList<T> {
    /// Gives the nodes up one after the other, however long the list is.
    fn drop(&mut self)
        opens_invariants none
        no_unwind
    {
        let mut head: Link<T> = None;
        core::mem::swap(&mut head, &mut self.head);
        release(head);
    }
}

} // verus!
