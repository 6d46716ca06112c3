//! Ordering placed attributes by their offset.

use vstd::prelude::*;
use crate::layout::definition::{MemberModel, PointAttributeMember};
use crate::layout::model::{non_overlapping, ranges_disjoint};

verus! {

/// The models of a sequence of members.
pub open spec fn member_models(members: Seq<PointAttributeMember>) -> Seq<MemberModel> {
    members.map_values(|m: PointAttributeMember| m@)
}

/// The offsets never decrease along the sequence.
pub open spec fn sorted_by_offset(members: Seq<MemberModel>) -> bool {
    forall|a: int, b: int|
        0 <= a < b < members.len() ==> (#[trigger] members[a]).offset <= (
        #[trigger] members[b]).offset
}

/// `sorted` holds the members of `given` in another order: position `k`
/// of `sorted` holds what position `to_given[k]` of `given` holds, and
/// `to_sorted` leads back.
pub open spec fn rearranges(
    sorted: Seq<MemberModel>,
    given: Seq<MemberModel>,
    to_given: Seq<int>,
    to_sorted: Seq<int>,
) -> bool {
    &&& sorted.len() == given.len()
    &&& to_given.len() == given.len()
    &&& to_sorted.len() == given.len()
    &&& forall|k: int|
        0 <= k < sorted.len() ==> 0 <= (#[trigger] to_given[k]) < sorted.len()
            && to_sorted[to_given[k]] == k && sorted[k] == given[to_given[k]]
    &&& forall|i: int|
        0 <= i < sorted.len() ==> 0 <= (#[trigger] to_sorted[i]) < sorted.len()
            && to_given[to_sorted[i]] == i
}

/// Copies the members into a vector of their own.
pub(crate) fn copy_members(members: &[PointAttributeMember]) -> (copy: Vec<PointAttributeMember>)
    ensures
        copy@ == members@,
{
    let n = members.len();
    let mut copy: Vec<PointAttributeMember> = Vec::with_capacity(n);
    let mut i: usize = 0;
    while i < n
        invariant
            n == members.len(),
            i <= n,
            copy@ == members@.take(i as int),
        decreases n - i,
    {
        copy.push(members[i]);
        assert(copy@ =~= members@.take(i + 1));
        i += 1;
    }
    assert(members@.take(n as int) =~= members@);
    copy
}

/// Sorts the members by offset.
pub(crate) fn sort_by_offset(members: Vec<PointAttributeMember>) -> (sorted: (
    Vec<PointAttributeMember>,
    Ghost<(Seq<int>, Seq<int>)>,
))
    ensures
        sorted_by_offset(member_models(sorted.0@)),
        rearranges(member_models(sorted.0@), member_models(members@), sorted.1@.0, sorted.1@.1),
{
    let ghost given = member_models(members@);
    let mut v = members;
    let n = v.len();
    let ghost mut to_given: Seq<int> = Seq::new(n as nat, |k: int| k);
    let ghost mut to_sorted: Seq<int> = Seq::new(n as nat, |k: int| k);
    let mut i: usize = 1;
    while i < n
        invariant
            n == v.len(),
            1 <= i,
            given.len() == n,
            forall|a: int, b: int| 0 <= a < b < i && b < n ==> v@[a]@.offset <= v@[b]@.offset,
            rearranges(member_models(v@), given, to_given, to_sorted),
        decreases n - i,
    {
        let mut j: usize = i;
        while j > 0 && v[j - 1].offset() > v[j].offset()
            invariant
                n == v.len(),
                j <= i < n,
                given.len() == n,
                forall|a: int, b: int|
                    0 <= a < b <= i && a != j && b != j ==> v@[a]@.offset <= v@[b]@.offset,
                forall|b: int| j < b <= i ==> v@[j as int]@.offset <= v@[b]@.offset,
                rearranges(member_models(v@), given, to_given, to_sorted),
            decreases j,
        {
            let lower = v[j - 1];
            let upper = v[j];
            let ghost before = v@;
            v.set(j - 1, upper);
            v.set(j, lower);
            proof {
                let p = to_given[j - 1];
                let q = to_given[j as int];
                to_given = to_given.update(j - 1, q).update(j as int, p);
                to_sorted = to_sorted.update(q, j - 1).update(p, j as int);
                assert forall|k: int| 0 <= k < n implies member_models(v@)[k] == given[
                #[trigger] to_given[k]] by {
                    assert(member_models(before)[k] == before[k]@);
                }
            }
            j -= 1;
        }
        i += 1;
    }
    (v, Ghost((to_given, to_sorted)))
}

/// In a sequence sorted by offset in which every member ends before the
/// next one starts, no two members share a byte.
pub proof fn lemma_sorted_neighbours_disjoint(sorted: Seq<MemberModel>)
    requires
        sorted_by_offset(sorted),
        forall|k: int|
            0 < k < sorted.len() ==> sorted[k - 1].end() <= (#[trigger] sorted[k]).offset,
    ensures
        non_overlapping(sorted),
{
    assert forall|i: int, j: int| 0 <= i < j < sorted.len() implies ranges_disjoint(
        #[trigger] sorted[i],
        #[trigger] sorted[j],
    ) by {
        assert(sorted[i + 1 - 1].end() <= sorted[i + 1].offset);
        if i + 1 < j {
            assert(sorted[i + 1].offset <= sorted[j].offset);
        }
    }
}

/// In a sequence sorted by offset, a member that reaches into the next one
/// shares a byte with it.
pub proof fn lemma_sorted_neighbours_overlap(sorted: Seq<MemberModel>, k: int)
    requires
        sorted_by_offset(sorted),
        0 < k < sorted.len(),
        sorted[k - 1].end() > sorted[k].offset,
    ensures
        !ranges_disjoint(sorted[k - 1], sorted[k]),
{
    sorted[k].datatype.lemma_size_positive();
    assert(sorted[k - 1].offset <= sorted[k].offset);
}

/// Whether members share a byte does not depend on their order.
pub proof fn lemma_rearranged_non_overlapping(
    sorted: Seq<MemberModel>,
    given: Seq<MemberModel>,
    to_given: Seq<int>,
    to_sorted: Seq<int>,
)
    requires
        rearranges(sorted, given, to_given, to_sorted),
    ensures
        non_overlapping(sorted) == non_overlapping(given),
{
    if non_overlapping(sorted) {
        assert forall|i: int, j: int| 0 <= i < j < given.len() implies ranges_disjoint(
            #[trigger] given[i],
            #[trigger] given[j],
        ) by {
            let p = to_sorted[i];
            let q = to_sorted[j];
            assert(to_given[p] == i && to_given[q] == j);
            if p < q {
                assert(ranges_disjoint(sorted[p], sorted[q]));
            } else {
                assert(ranges_disjoint(sorted[q], sorted[p]));
            }
        }
    }
    if non_overlapping(given) {
        assert forall|p: int, q: int| 0 <= p < q < sorted.len() implies ranges_disjoint(
            #[trigger] sorted[p],
            #[trigger] sorted[q],
        ) by {
            let i = to_given[p];
            let j = to_given[q];
            assert(to_sorted[i] == p && to_sorted[j] == q);
            if i < j {
                assert(ranges_disjoint(given[i], given[j]));
            } else {
                assert(ranges_disjoint(given[j], given[i]));
            }
        }
    }
}

} // verus!
