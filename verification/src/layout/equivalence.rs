//! Comparing layouts by the attributes they hold, without regard to the
//! order and to the offsets.

use vstd::prelude::*;
use vstd::seq_lib::{seq_to_set_is_finite, to_multiset_contains};
use vstd::set_lib::lemma_subset_equality;
use crate::layout::definition::DefinitionModel;
use crate::layout::model::LayoutModel;

verus! {

/// In a well-formed layout no definition occurs twice, and the first member
/// of a name is the only one.
pub proof fn lemma_definitions_distinct(layout: LayoutModel)
    requires
        layout.wf(),
    ensures
        layout.definitions().no_duplicates(),
        layout.definitions().to_set().len() == layout.members.len(),
        forall|k: int|
            0 <= k < layout.members.len() ==> layout.names().index_of_first(
                (#[trigger] layout.members[k]).name,
            ) == Some(k),
{
    let definitions = layout.definitions();
    assert forall|i: int, j: int|
        0 <= i < definitions.len() && 0 <= j < definitions.len() && i != j implies definitions[i]
        != definitions[j] by {
        if i < j {
            assert(layout.members[i].name != layout.members[j].name);
        } else {
            assert(layout.members[j].name != layout.members[i].name);
        }
    }
    definitions.unique_seq_to_set();
    assert forall|k: int| 0 <= k < layout.members.len() implies layout.names().index_of_first(
        (#[trigger] layout.members[k]).name,
    ) == Some(k) by {
        let name = layout.members[k].name;
        layout.names().index_of_first_ensures(name);
        assert(layout.names()[k] == name);
        let first = layout.names().index_of_first(name)->Some_0;
        assert(layout.names()[first] == layout.members[first].name);
        if first < k {
            assert(layout.members[first].name != layout.members[k].name);
        } else if k < first {
            assert(layout.members[k].name != layout.members[first].name);
        }
    }
}

/// Two well-formed layouts compare equal without offsets exactly when they
/// hold the same set of definitions. Neither the order in which the
/// attributes were added nor the offsets at which they lie take part.
pub proof fn lemma_same_attributes_is_set_equality(a: LayoutModel, b: LayoutModel)
    requires
        a.wf(),
        b.wf(),
    ensures
        a.same_attributes(b) <==> a.definitions().to_set() == b.definitions().to_set(),
{
    broadcast use seq_to_set_is_finite;

    lemma_definitions_distinct(a);
    lemma_definitions_distinct(b);
    let in_a = a.definitions().to_set();
    let in_b = b.definitions().to_set();
    if a.same_attributes(b) {
        assert forall|d: DefinitionModel| in_a.contains(d) implies in_b.contains(d) by {
            let i = choose|i: int| 0 <= i < a.definitions().len() && a.definitions()[i] == d;
            let name = a.members[i].name;
            b.names().index_of_first_ensures(name);
            let k = b.names().index_of_first(name)->Some_0;
            assert(b.names()[k] == b.members[k].name);
            assert(b.definitions()[k] == d);
        }
        lemma_subset_equality(in_a, in_b);
    }
    if in_a == in_b {
        assert forall|i: int| 0 <= i < a.members.len() implies b.names().contains(
            (#[trigger] a.members[i]).name,
        ) && b.members[b.names().index_of_first(a.members[i].name).unwrap()].datatype
            == a.members[i].datatype by {
            let d = a.definitions()[i];
            assert(in_a.contains(d));
            assert(in_b.contains(d));
            let k = choose|k: int| 0 <= k < b.definitions().len() && b.definitions()[k] == d;
            assert(b.names()[k] == a.members[i].name);
            assert(b.members[k].name == a.members[i].name);
        }
    }
}

/// Two well-formed layouts of which one holds the definitions of the other
/// in another order, at whatever offsets, compare equal.
pub proof fn lemma_same_attributes_permuted(a: LayoutModel, b: LayoutModel)
    requires
        a.wf(),
        b.wf(),
        a.definitions().to_multiset() == b.definitions().to_multiset(),
    ensures
        a.same_attributes(b),
{
    lemma_same_attributes_is_set_equality(a, b);
    assert forall|d: DefinitionModel|
        a.definitions().to_set().contains(d) == b.definitions().to_set().contains(d) by {
        to_multiset_contains(a.definitions(), d);
        to_multiset_contains(b.definitions(), d);
    }
    assert(a.definitions().to_set() =~= b.definitions().to_set());
}

/// Every well-formed layout compares equal to itself.
pub proof fn lemma_same_attributes_reflexive(a: LayoutModel)
    requires
        a.wf(),
    ensures
        a.same_attributes(a),
{
    lemma_same_attributes_is_set_equality(a, a);
}

/// Comparing without offsets does not depend on which layout is asked.
pub proof fn lemma_same_attributes_symmetric(a: LayoutModel, b: LayoutModel)
    requires
        a.wf(),
        b.wf(),
    ensures
        a.same_attributes(b) == b.same_attributes(a),
{
    lemma_same_attributes_is_set_equality(a, b);
    lemma_same_attributes_is_set_equality(b, a);
}

/// Two layouts that compare equal to a third compare equal to each other.
pub proof fn lemma_same_attributes_transitive(a: LayoutModel, b: LayoutModel, c: LayoutModel)
    requires
        a.wf(),
        b.wf(),
        c.wf(),
        a.same_attributes(b),
        b.same_attributes(c),
    ensures
        a.same_attributes(c),
{
    lemma_same_attributes_is_set_equality(a, b);
    lemma_same_attributes_is_set_equality(b, c);
    lemma_same_attributes_is_set_equality(a, c);
}

} // verus!
