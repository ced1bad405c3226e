//! Lists of entries under names, in which no name occurs twice: what a map
//! keyed by texts holds, in the order in which the names came in.

use vstd::prelude::*;
use crate::text::str_eq;

verus! {

/// No name occurs twice.
pub open spec fn distinct_names<T>(entries: Seq<(String, T)>) -> bool {
    forall|i: int, j: int|
        0 <= i < j < entries.len() ==> (#[trigger] entries[i]).0@ != (#[trigger] entries[j]).0@
}

/// Whether `place` is the first place at which a name stands.
pub open spec fn stands_at<T>(entries: Seq<(String, T)>, name: Seq<char>, place: int) -> bool {
    &&& 0 <= place < entries.len()
    &&& entries[place].0@ == name
    &&& forall|j: int| 0 <= j < place ==> (#[trigger] entries[j]).0@ != name
}

/// Whether a name stands nowhere.
pub open spec fn absent<T>(entries: Seq<(String, T)>, name: Seq<char>) -> bool {
    forall|j: int| 0 <= j < entries.len() ==> (#[trigger] entries[j]).0@ != name
}

/// The first place at which a name stands, if it stands anywhere.
pub fn find<T>(entries: &Vec<(String, T)>, name: &str) -> (r: Option<usize>)
    ensures
        match r {
            Some(place) => stands_at(entries@, name@, place as int),
            None => absent(entries@, name@),
        },
{
    let mut i: usize = 0;
    while i < entries.len()
        invariant
            i <= entries.len(),
            forall|j: int| 0 <= j < i ==> (#[trigger] entries@[j]).0@ != name@,
        decreases entries.len() - i,
    {
        if str_eq(entries[i].0.as_str(), name) {
            return Some(i);
        }
        i = i + 1;
    }
    None
}

/// What a list holds after an entry has been put under a name: the entry
/// in the place of the one that stood under that name, or at the end where
/// the name is new.
pub open spec fn after_put<T>(
    before: Seq<(String, T)>,
    after: Seq<(String, T)>,
    name: String,
    value: T,
) -> bool {
    ||| exists|place: int|
        stands_at(before, name@, place) && after == #[trigger] before.update(place, (name, value))
    ||| absent(before, name@) && after == before.push((name, value))
}

/// Puts an entry under a name, as a map does: it takes the place of the
/// entry that stood under that name, or the end where the name is new. A
/// list without a repeated name stays one.
pub fn put<T>(entries: &mut Vec<(String, T)>, name: String, value: T)
    ensures
        after_put(old(entries)@, final(entries)@, name, value),
        distinct_names(old(entries)@) ==> distinct_names(final(entries)@),
{
    match find(entries, name.as_str()) {
        Some(place) => {
            entries.set(place, (name, value));
            proof {
                let before = old(entries)@;
                let after = entries@;
                assert(after == before.update(place as int, (name, value)));
                if distinct_names(before) {
                    assert forall|i: int, j: int| 0 <= i < j < after.len() implies (
                    #[trigger] after[i]).0@ != (#[trigger] after[j]).0@ by {
                        if i == place {
                            assert(before[j].0@ != before[place as int].0@);
                        } else if j == place {
                            assert(before[i].0@ != before[place as int].0@);
                        } else {
                            assert(before[i].0@ != before[j].0@);
                        }
                    }
                }
            }
        },
        None => {
            entries.push((name, value));
            proof {
                let before = old(entries)@;
                let after = entries@;
                if distinct_names(before) {
                    assert forall|i: int, j: int| 0 <= i < j < after.len() implies (
                    #[trigger] after[i]).0@ != (#[trigger] after[j]).0@ by {
                        if j < before.len() {
                            assert(before[i].0@ != before[j].0@);
                        } else {
                            assert(before[i].0@ != name@);
                        }
                    }
                }
            }
        },
    }
}

} // verus!
