//! Entries kept under names: what the stage and the registry share.

use vstd::prelude::*;

verus! {

/// The names of the entries, in the order of the entries.
pub open spec fn names_of<T>(entries: Seq<(String, T)>) -> Seq<Seq<char>> {
    Seq::new(entries.len(), |i: int| entries[i].0@)
}

/// No name stands at two places.
pub open spec fn distinct(names: Seq<Seq<char>>) -> bool {
    forall|i: int, j: int| 0 <= i < j < names.len() ==> names[i] != names[j]
}

/// Some entry has the name.
pub open spec fn has_name(names: Seq<Seq<char>>, name: Seq<char>) -> bool {
    exists|i: int| 0 <= i < names.len() && names[i] == name
}

/// A place at which the name stands, where it stands at one.
pub open spec fn place_of(names: Seq<Seq<char>>, name: Seq<char>) -> int {
    choose|i: int| 0 <= i < names.len() && names[i] == name
}

/// Among distinct names, a name stands at the one place it is found at.
pub proof fn lemma_place_of(names: Seq<Seq<char>>, i: int)
    requires
        distinct(names),
        0 <= i < names.len(),
    ensures
        has_name(names, names[i]),
        place_of(names, names[i]) == i,
{
    let j = place_of(names, names[i]);
    assert(0 <= j < names.len() && names[j] == names[i]);
    if j < i {
        assert(names[j] != names[i]);
    } else if i < j {
        assert(names[i] != names[j]);
    }
}

/// The first place at which the name stands, if it stands at any.
pub fn find_name<T>(entries: &Vec<(String, T)>, name: &str) -> (found: Option<usize>)
    ensures
        found is Some <==> has_name(names_of(entries@), name@),
        found is Some ==> found->Some_0 < entries@.len() && entries@[found->Some_0 as int].0@
            == name@,
        found is Some ==> forall|j: int| 0 <= j < found->Some_0 ==> entries@[j].0@ != name@,
{
    let wanted: String = name.to_owned();
    let mut i: usize = 0;
    while i < entries.len()
        invariant
            i <= entries@.len(),
            wanted@ == name@,
            forall|j: int| 0 <= j < i ==> entries@[j].0@ != name@,
        decreases entries@.len() - i,
    {
        if entries[i].0 == wanted {
            assert(names_of(entries@)[i as int] == name@);
            return Some(i);
        }
        i += 1;
    }
    assert forall|j: int| 0 <= j < names_of(entries@).len() implies names_of(entries@)[j]
        != name@ by {
        assert(names_of(entries@)[j] == entries@[j].0@);
    }
    None
}

} // verus!
