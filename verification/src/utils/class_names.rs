//! Class lists: space-separated class names, as the `class` attribute of an
//! element takes them.

use vstd::prelude::*;
use vstd::string::*;

verus! {

/// A class list with one more part added: an empty part adds nothing, and a
/// single space stands between two parts that are not empty.
pub open spec fn join_class(list: Seq<char>, part: Seq<char>) -> Seq<char> {
    if part.len() == 0 {
        list
    } else if list.len() == 0 {
        part
    } else {
        list + " "@ + part
    }
}

/// The class list made of the given parts, in order: the parts that are not
/// empty, with a single space between neighbours.
pub open spec fn class_list(parts: Seq<Seq<char>>) -> Seq<char>
    decreases parts.len(),
{
    if parts.len() == 0 {
        Seq::empty()
    } else {
        join_class(class_list(parts.drop_last()), parts.last())
    }
}

/// The parts of a class list as mathematical values.
pub open spec fn parts_view(parts: Seq<&str>) -> Seq<Seq<char>> {
    parts.map_values(|part: &str| part@)
}

/// Adds one part to a class list.
pub fn push_class(list: &mut String, part: &str)
    ensures
        final(list)@ == join_class(old(list)@, part@),
{
    if part.is_empty() {
    } else if list.as_str().is_empty() {
        list.append(part);
        assert(list@ =~= part@);
    } else {
        list.append(" ");
        list.append(part);
    }
}

/// Joins the parts into one class list, skipping the empty ones.
pub fn cn(parts: &[&str]) -> (classes: String)
    ensures
        classes@ == class_list(parts_view(parts@)),
{
    let ghost all = parts_view(parts@);
    let mut classes = String::new();
    let mut i: usize = 0;
    while i < parts.len()
        invariant
            i <= parts@.len(),
            all == parts_view(parts@),
            classes@ == class_list(all.take(i as int)),
        decreases parts@.len() - i,
    {
        proof {
            assert(all.take(i as int + 1).drop_last() =~= all.take(i as int));
            assert(all.take(i as int + 1).last() == parts@[i as int]@);
        }
        push_class(&mut classes, parts[i]);
        i += 1;
    }
    proof {
        assert(all.take(i as int) =~= all);
    }
    classes
}

} // verus!
