//! What holds of the list's operations taken together. Each law is stated
//! over the sequence that a list holds, in the terms in which the operations'
//! own contracts describe their effect on it.

use vstd::prelude::*;
use crate::list::LinkedList;

verus! {

/// One operation at an end of a list.
pub enum EndOp<T> {
    PushFront(T),
    PushBack(T),
    PopFront,
    PopBack,
}

/// What a list holds after `op`, if it held `s` before: the effect that the
/// contract of the operation of that name gives.
pub open spec fn step<T>(s: Seq<T>, op: EndOp<T>) -> Seq<T> {
    match op {
        EndOp::PushFront(value) => seq![value] + s,
        EndOp::PushBack(value) => s.push(value),
        EndOp::PopFront => if s.len() == 0 {
            s
        } else {
            s.drop_first()
        },
        EndOp::PopBack => if s.len() == 0 {
            s
        } else {
            s.drop_last()
        },
    }
}

/// What a list holds after the operations `ops`, done in order, if it held `s`
/// before.
pub open spec fn run<T>(s: Seq<T>, ops: Seq<EndOp<T>>) -> Seq<T>
    decreases ops.len(),
{
    if ops.len() == 0 {
        s
    } else {
        step(run(s, ops.drop_last()), ops.last())
    }
}

/// Whether `op` puts an element into the list.
pub open spec fn is_push<T>(op: EndOp<T>) -> bool {
    op is PushFront || op is PushBack
}

/// Whether `op` takes an element out of a list that holds `s`: a pop finds
/// nothing to take in an empty list.
pub open spec fn is_successful_pop<T>(s: Seq<T>, op: EndOp<T>) -> bool {
    (op is PopFront || op is PopBack) && s.len() > 0
}

/// The number of pushes among `ops`.
pub open spec fn pushes<T>(ops: Seq<EndOp<T>>) -> nat
    decreases ops.len(),
{
    if ops.len() == 0 {
        0
    } else {
        pushes(ops.drop_last()) + if is_push(ops.last()) {
            1nat
        } else {
            0nat
        }
    }
}

/// The number of pops among `ops` that take an element out, when `ops` are
/// done in order on a list that holds `s`.
pub open spec fn successful_pops<T>(s: Seq<T>, ops: Seq<EndOp<T>>) -> nat
    decreases ops.len(),
{
    if ops.len() == 0 {
        0
    } else {
        successful_pops(s, ops.drop_last()) + if is_successful_pop(
            run(s, ops.drop_last()),
            ops.last(),
        ) {
            1nat
        } else {
            0nat
        }
    }
}

/// Whatever pushes and pops are done at the ends of a list, its length
/// changes by the number of pushes less the number of pops that took an
/// element out.
pub proof fn length_counts_pushes_and_pops<T>(s: Seq<T>, ops: Seq<EndOp<T>>)
    ensures
        run(s, ops).len() == s.len() + pushes(ops) - successful_pops(s, ops),
    decreases ops.len(),
{
    if ops.len() > 0 {
        length_counts_pushes_and_pops(s, ops.drop_last());
    }
}

/// On a list that starts empty, the length is the number of pushes less the
/// number of pops that took an element out.
pub proof fn length_from_empty<T>(ops: Seq<EndOp<T>>)
    ensures
        run(Seq::<T>::empty(), ops).len() == pushes(ops) - successful_pops(
            Seq::<T>::empty(),
            ops,
        ),
{
    length_counts_pushes_and_pops(Seq::<T>::empty(), ops);
}

/// A push at the front followed by a pop at the front: the pop finds an
/// element, it is the one that was pushed, and the list holds what it held
/// before the push.
pub proof fn push_front_then_pop_front<T>(s: Seq<T>, x: T)
    ensures
        (seq![x] + s).len() > 0,
        (seq![x] + s)[0] == x,
        (seq![x] + s).drop_first() == s,
        step(step(s, EndOp::PushFront(x)), EndOp::PopFront) == s,
{
}

/// A push at the back followed by a pop at the back: the pop finds an
/// element, it is the one that was pushed, and the list holds what it held
/// before the push.
pub proof fn push_back_then_pop_back<T>(s: Seq<T>, x: T)
    ensures
        s.push(x).len() > 0,
        s.push(x).last() == x,
        s.push(x).drop_last() == s,
        step(step(s, EndOp::PushBack(x)), EndOp::PopBack) == s,
{
}

/// Two reads of the front of a list that did not change between them give
/// the same result, and so do two reads of its back.
pub proof fn reads_agree<T>(
    list: LinkedList<T>,
    front_once: Option<&T>,
    front_again: Option<&T>,
    back_once: Option<&T>,
    back_again: Option<&T>,
)
    requires
        front_once == list.spec_front(),
        front_again == list.spec_front(),
        back_once == list.spec_back(),
        back_again == list.spec_back(),
    ensures
        front_once == front_again,
        back_once == back_again,
{
}

/// An insertion at position `at` followed by a removal at the same position:
/// the removal gives back the inserted value, and the list holds what it held
/// before the insertion.
pub proof fn insert_then_remove<T>(s: Seq<T>, value: T, at: int)
    requires
        0 <= at <= s.len(),
    ensures
        at < s.insert(at, value).len(),
        s.insert(at, value)[at] == value,
        s.insert(at, value).remove(at) == s,
{
}

} // verus!
