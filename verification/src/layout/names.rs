//! Telling whether the names of a sequence of members are all different.

use vstd::prelude::*;
use itertools::Itertools;
use crate::layout::definition::PointAttributeMember;
use crate::layout::model::names_unique;

verus! {

/// The names of the members, in order.
pub open spec fn member_names(members: Seq<PointAttributeMember>) -> Seq<Seq<char>> {
    members.map_values(|m: PointAttributeMember| m@.name)
}

/// The sequence without the elements that occurred before: of equal
/// elements the first stays, and what stays keeps its order.
pub open spec fn first_occurrences<A>(s: Seq<A>) -> Seq<A>
    decreases s.len(),
{
    if s.len() == 0 {
        Seq::empty()
    } else if s.drop_last().contains(s.last()) {
        first_occurrences(s.drop_last())
    } else {
        first_occurrences(s.drop_last()).push(s.last())
    }
}

/// Dropping repeated elements shortens a sequence exactly when it holds an
/// element twice.
pub proof fn lemma_first_occurrences_len<A>(s: Seq<A>)
    ensures
        first_occurrences(s).len() <= s.len(),
        first_occurrences(s).len() == s.len() <==> s.no_duplicates(),
    decreases s.len(),
{
    if s.len() > 0 {
        let init = s.drop_last();
        lemma_first_occurrences_len(init);
        if init.contains(s.last()) {
            let i = choose|i: int| 0 <= i < init.len() && init[i] == s.last();
            assert(s[i] == s[s.len() - 1]);
        } else if init.no_duplicates() {
            assert forall|i: int, j: int|
                0 <= i < s.len() && 0 <= j < s.len() && i != j implies s[i] != s[j] by {
                if i < init.len() && j < init.len() {
                    assert(init[i] != init[j]);
                } else if i < init.len() {
                    assert(init[i] != s.last());
                } else {
                    assert(init[j] != s.last());
                }
            }
        } else {
            let (i, j) = choose|i: int, j: int|
                0 <= i < init.len() && 0 <= j < init.len() && i != j && init[i] == init[j];
            assert(s[i] == s[j]);
        }
    }
}

/// The names of the members are unique exactly when the sequence of their
/// names holds none twice.
pub proof fn lemma_names_unique(members: Seq<PointAttributeMember>)
    ensures
        names_unique(members.map_values(|m: PointAttributeMember| m@)) == member_names(
            members,
        ).no_duplicates(),
{
    let models = members.map_values(|m: PointAttributeMember| m@);
    let names = member_names(members);
    if names_unique(models) {
        assert forall|i: int, j: int|
            0 <= i < names.len() && 0 <= j < names.len() && i != j implies names[i] != names[j] by {
            if i < j {
                assert(models[i].name != models[j].name);
            } else {
                assert(models[j].name != models[i].name);
            }
        }
    }
    if names.no_duplicates() {
        assert forall|i: int, j: int| 0 <= i < j < models.len() implies (#[trigger] models[i]).name
            != (#[trigger] models[j]).name by {
            assert(names[i] != names[j]);
        }
    }
}

/// The names of the members without repetitions, as `Itertools::unique`
/// yields them: the adaptor passes on each name that it has not passed on
/// before, in the order of the input.
#[verifier::external_body]
pub(crate) fn unique_names(members: &[PointAttributeMember]) -> (names: Vec<&'static str>)
    ensures
        names@.map_values(|n: &'static str| n@) == first_occurrences(member_names(members@)),
{
    members.iter().map(|a| a.name()).unique().collect()
}

} // verus!
