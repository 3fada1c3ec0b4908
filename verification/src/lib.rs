//! A singly linked list whose every operation is specified over the sequence
//! of elements that the list holds.

pub mod iter;
pub mod laws;
pub mod list;
mod node;
pub mod text;

pub use iter::{IntoIter, Iter};
pub use list::LinkedList;
