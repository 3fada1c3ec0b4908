//! The text form of a list: its entries between square brackets, separated by
//! a comma and a space.

use vstd::prelude::*;
use vstd::string::*;

verus! {

/// The entries written one after the other with `, ` between neighbours.
pub open spec fn joined(entries: Seq<Seq<char>>) -> Seq<char>
    decreases entries.len(),
{
    if entries.len() == 0 {
        Seq::empty()
    } else if entries.len() == 1 {
        entries[0]
    } else {
        joined(entries.drop_last()) + seq![',', ' '] + entries.last()
    }
}

/// The entries joined and put between `[` and `]`.
pub open spec fn bracketed(entries: Seq<Seq<char>>) -> Seq<char> {
    seq!['['] + joined(entries) + seq![']']
}

/// The character sequences of the given strings, in the same order.
pub open spec fn texts(entries: Seq<String>) -> Seq<Seq<char>> {
    Seq::new(entries.len(), |i: int| entries[i]@)
}

/// Writes the entries as one bracketed, comma-separated text.
pub fn bracket(entries: &Vec<String>) -> (text: String)
    ensures
        text@ == bracketed(texts(entries@)),
{
    let ghost all = texts(entries@);
    let mut text = String::new();
    text.append("[");
    proof {
        reveal_strlit("[");
    }
    let mut i: usize = 0;
    while i < entries.len()
        invariant
            i <= entries.len(),
            all == texts(entries@),
            all.len() == entries.len(),
            text@ == seq!['['] + joined(all.take(i as int)),
        decreases entries.len() - i,
    {
        if i > 0 {
            text.append(", ");
        }
        text.append(entries[i].as_str());
        proof {
            reveal_strlit(", ");
            assert(all.take(i + 1).drop_last() =~= all.take(i as int));
        }
        i += 1;
    }
    text.append("]");
    proof {
        reveal_strlit("]");
        assert(all.take(i as int) =~= all);
    }
    text
}

/// The `Debug` text of one value, as `format!` with `{:?}` writes it. The text
/// is whatever the value's own `Debug` impl produces, so nothing is stated of
/// it.
#[verifier::external_body]
pub(crate) fn debug_text<T: core::fmt::Debug>(value: &T) -> (text: String) {
    format!("{:?}", value)
}

} // verus!
