//! The links of a list: each node owns its element and the rest of the chain.

use vstd::prelude::*;

verus! {

pub(crate) struct Node<T> {
    pub(crate) next: Option<Box<Node<T>>>,
    pub(crate) value: T,
}

/// An owning link to the next node, or the end of the chain.
pub(crate) type Link<T> = Option<Box<Node<T>>>;

impl<T> Node<T> {
    /// The element of this node followed by the elements of every node after it.
    pub(crate) open spec fn elements(self) -> Seq<T>
        decreases self,
    {
        seq![self.value] + chain(self.next)
    }
}

/// The elements reachable from a link, in the order in which a walk meets them.
pub(crate) open spec fn chain<T>(link: Link<T>) -> Seq<T>
    decreases link,
{
    match link {
        None => Seq::empty(),
        Some(node) => node.elements(),
    }
}

/// Takes a chain apart node by node. Each step unlinks the first node before
/// it lets go of it, so that a long chain is given up without deep recursion.
pub(crate) fn release<T>(link: Link<T>)
    opens_invariants none
    no_unwind
{
    let mut link = link;
    loop
        decreases chain(link).len(),
    {
        match link {
            None => {
                break;
            },
            Some(node) => {
                let node: Node<T> = *node;
                link = node.next;
            },
        }
    }
}

} // verus!
