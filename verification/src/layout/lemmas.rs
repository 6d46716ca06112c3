//! What holds of every layout that the placement rules produce.

use vstd::prelude::*;
use vstd::arithmetic::power2::is_pow2;
use crate::layout::definition::{DefinitionModel, MemberModel};
use crate::layout::model::{
    in_memory_order, max_end, non_overlapping, offsets_aligned, FieldAlignment, LayoutError,
    LayoutModel,
};
use crate::math::{lemma_align_up_is_multiple, MAX_RECORD_SIZE};

verus! {

/// A power of two is positive.
pub proof fn lemma_power_of_two_positive(n: int)
    requires
        is_pow2(n),
    ensures
        n > 0,
{
    reveal(is_pow2);
}

/// The empty layout is well formed.
pub proof fn lemma_empty_wf()
    ensures
        LayoutModel::empty().wf(),
{
    reveal(is_pow2);
}

/// Adding an attribute to a well-formed layout gives a well-formed layout:
/// names stay unique, the size stays a multiple of the alignment, and the
/// record covers every member.
pub proof fn lemma_add_preserves_wf(
    layout: LayoutModel,
    definition: DefinitionModel,
    policy: FieldAlignment,
)
    requires
        layout.wf(),
        layout.add(definition, policy) is Ok,
    ensures
        layout.add(definition, policy)->Ok_0.wf(),
{
    let next = layout.placed(definition, policy);
    assert(next == layout.add(definition, policy)->Ok_0);
    lemma_power_of_two_positive(next.alignment as int);
    let offset = layout.offset_for(definition, policy);
    let end = offset + definition.datatype.spec_size();
    let unaligned = vstd::math::max(layout.size as int, end as int);
    lemma_align_up_is_multiple(unaligned, next.alignment as int);
    assert forall|i: int, j: int| 0 <= i < j < next.members.len() implies (
    #[trigger] next.members[i]).name != (#[trigger] next.members[j]).name by {
        if j == layout.members.len() {
            assert(layout.names()[i] == layout.members[i].name);
        }
    }
    assert forall|i: int| 0 <= i < next.members.len() implies (#[trigger] next.members[i]).end()
        <= next.size by {
        if i < layout.members.len() {
            assert(next.members[i] == layout.members[i]);
        }
    }
}

/// The largest end offset is at or above the end of every member.
pub proof fn lemma_max_end_covers(members: Seq<MemberModel>)
    ensures
        forall|i: int| 0 <= i < members.len() ==> (#[trigger] members[i]).end() <= max_end(members),
    decreases members.len(),
{
    if members.len() > 0 {
        lemma_max_end_covers(members.drop_last());
        assert forall|i: int| 0 <= i < members.len() implies (#[trigger] members[i]).end()
            <= max_end(members) by {
            if i < members.len() - 1 {
                assert(members.drop_last()[i] == members[i]);
            }
        }
    }
}

/// The largest end offset of a prefix is not above that of the whole.
pub proof fn lemma_max_end_prefix(members: Seq<MemberModel>, n: int)
    requires
        0 <= n <= members.len(),
    ensures
        max_end(members.take(n)) <= max_end(members),
    decreases members.len(),
{
    if n == members.len() {
        assert(members.take(n) =~= members);
    } else {
        assert(members.drop_last().take(n) =~= members.take(n));
        lemma_max_end_prefix(members.drop_last(), n);
    }
}

/// Where building from the first `n` attributes is refused, building from
/// all of them is refused with the same error.
pub proof fn lemma_build_prefix_error(
    definitions: Seq<DefinitionModel>,
    n: int,
    policy: FieldAlignment,
)
    requires
        0 <= n <= definitions.len(),
        LayoutModel::build(definitions.take(n), policy) is Err,
    ensures
        LayoutModel::build(definitions, policy) == LayoutModel::build(definitions.take(n), policy),
    decreases definitions.len(),
{
    if n == definitions.len() {
        assert(definitions.take(n) =~= definitions);
    } else {
        assert(definitions.drop_last().take(n) =~= definitions.take(n));
        lemma_build_prefix_error(definitions.drop_last(), n, policy);
    }
}

/// Members that lie in memory in the order of their insertion share no
/// byte.
pub proof fn lemma_memory_order_non_overlapping(members: Seq<MemberModel>)
    requires
        in_memory_order(members),
    ensures
        non_overlapping(members),
{
}

/// Adding an attribute to a layout whose members lie in memory in the order
/// of their insertion keeps them so.
pub proof fn lemma_add_keeps_memory_order(
    layout: LayoutModel,
    definition: DefinitionModel,
    policy: FieldAlignment,
)
    requires
        in_memory_order(layout.members),
        layout.add(definition, policy) is Ok,
    ensures
        in_memory_order(layout.add(definition, policy)->Ok_0.members),
{
    let next = layout.placed(definition, policy);
    let alignment = policy.field_alignment(definition.datatype);
    let cursor = layout.packed_offset_of_next_field();
    if alignment > 0 {
        lemma_align_up_is_multiple(cursor as int, alignment as int);
    }
    let last = layout.members.len() as int;
    assert(next.members[last].offset >= cursor);
    assert forall|i: int, j: int| 0 <= i < j < next.members.len() implies (
    #[trigger] next.members[i]).end() <= (#[trigger] next.members[j]).offset by {
        if j < last {
            assert(layout.members[i].end() <= layout.members[j].offset);
        } else if i == last - 1 {
            assert(next.members[i] == layout.members.last());
        } else {
            assert(layout.members[i].end() <= layout.members[last - 1].offset);
            assert(next.members[i] == layout.members[i]);
        }
    }
}

/// What holds of every layout that was built from a sequence of
/// definitions under one policy: it is well formed; it holds the given
/// definitions, in their order; every member ends at or before the start of
/// each member added after it, and starts at a multiple of the alignment
/// that the policy gives to its data type.
pub proof fn lemma_build_ok(definitions: Seq<DefinitionModel>, policy: FieldAlignment)
    requires
        LayoutModel::build(definitions, policy) is Ok,
    ensures
        LayoutModel::build(definitions, policy)->Ok_0.wf(),
        LayoutModel::build(definitions, policy)->Ok_0.definitions() == definitions,
        in_memory_order(LayoutModel::build(definitions, policy)->Ok_0.members),
        non_overlapping(LayoutModel::build(definitions, policy)->Ok_0.members),
        offsets_aligned(LayoutModel::build(definitions, policy)->Ok_0.members, policy),
    decreases definitions.len(),
{
    let built = LayoutModel::build(definitions, policy)->Ok_0;
    if definitions.len() == 0 {
        lemma_empty_wf();
        assert(built.definitions() =~= definitions);
    } else {
        let init = definitions.drop_last();
        let last = definitions.last();
        lemma_build_ok(init, policy);
        let before = LayoutModel::build(init, policy)->Ok_0;
        assert(built == before.placed(last, policy));
        lemma_add_preserves_wf(before, last, policy);
        assert(built.definitions() =~= definitions) by {
            assert(before.definitions().len() == init.len());
            assert forall|i: int| 0 <= i < definitions.len() implies built.definitions()[i]
                == definitions[i] by {
                if i < init.len() {
                    assert(before.definitions()[i] == init[i]);
                    assert(built.members[i] == before.members[i]);
                }
            }
        }
        let alignment = policy.field_alignment(last.datatype);
        lemma_power_of_two_positive(built.alignment as int);
        last.datatype.lemma_size_positive();
        assert(alignment > 0);
        lemma_align_up_is_multiple(before.packed_offset_of_next_field() as int, alignment as int);
        lemma_add_keeps_memory_order(before, last, policy);
        lemma_memory_order_non_overlapping(built.members);
        assert forall|i: int| 0 <= i < built.members.len() implies policy.field_alignment(
            built.members[i].datatype,
        ) > 0 && (#[trigger] built.members[i]).offset % policy.field_alignment(
            built.members[i].datatype,
        ) == 0 by {
            if i < init.len() {
                assert(built.members[i] == before.members[i]);
            }
        }
    }
}

/// The alignment of a record that was built under one policy: under the
/// default policy it is at least what each member asks for; under the
/// packed policy it is the cap, where the record has members at all.
pub proof fn lemma_build_alignment(definitions: Seq<DefinitionModel>, policy: FieldAlignment)
    requires
        LayoutModel::build(definitions, policy) is Ok,
    ensures
        policy is Default ==> forall|i: int|
            0 <= i < definitions.len() ==> (#[trigger] definitions[i]).datatype.spec_min_alignment()
                <= LayoutModel::build(definitions, policy)->Ok_0.alignment,
        policy is Packed && definitions.len() > 0 ==> LayoutModel::build(
            definitions,
            policy,
        )->Ok_0.alignment == policy->Packed_0,
    decreases definitions.len(),
{
    if definitions.len() > 0 {
        let init = definitions.drop_last();
        lemma_build_alignment(init, policy);
        lemma_build_ok(init, policy);
        let before = LayoutModel::build(init, policy)->Ok_0;
        assert(before.definitions().len() == init.len());
        if policy is Default {
            assert forall|i: int| 0 <= i < definitions.len() implies (
            #[trigger] definitions[i]).datatype.spec_min_alignment() <= LayoutModel::build(
                definitions,
                policy,
            )->Ok_0.alignment by {
                if i < init.len() {
                    assert(init[i] == definitions[i]);
                }
            }
        }
    }
}

/// Under the default policy every attribute starts at or behind the end of
/// the attribute before it, at a multiple of the minimum alignment of its
/// data type.
pub proof fn lemma_default_offsets(definitions: Seq<DefinitionModel>)
    requires
        LayoutModel::build(definitions, FieldAlignment::Default) is Ok,
    ensures
        forall|i: int|
            0 < i < definitions.len() ==> LayoutModel::build(
                definitions,
                FieldAlignment::Default,
            )->Ok_0.members[i - 1].end() <= (#[trigger] LayoutModel::build(
                definitions,
                FieldAlignment::Default,
            )->Ok_0.members[i]).offset,
        forall|i: int|
            0 <= i < definitions.len() ==> (#[trigger] LayoutModel::build(
                definitions,
                FieldAlignment::Default,
            )->Ok_0.members[i]).offset % definitions[i].datatype.spec_min_alignment() == 0,
{
    lemma_build_ok(definitions, FieldAlignment::Default);
    let built = LayoutModel::build(definitions, FieldAlignment::Default)->Ok_0;
    assert(built.definitions().len() == definitions.len());
    assert forall|i: int| 0 <= i < definitions.len() implies (#[trigger] built.members[i]).offset
        % definitions[i].datatype.spec_min_alignment() == 0 by {
        assert(built.definitions()[i] == definitions[i]);
    }
    assert forall|i: int| 0 < i < definitions.len() implies built.members[i - 1].end() <= (
    #[trigger] built.members[i]).offset by {
        let before = built.members[i - 1];
        assert(before.end() <= built.members[i].offset);
    }
}

/// A sequence of definitions in which a name occurs twice builds no layout,
/// under any policy.
pub proof fn lemma_repeated_name_builds_nothing(
    definitions: Seq<DefinitionModel>,
    policy: FieldAlignment,
    i: int,
    j: int,
)
    requires
        0 <= i < j < definitions.len(),
        definitions[i].name == definitions[j].name,
    ensures
        LayoutModel::build(definitions, policy) is Err,
{
    if LayoutModel::build(definitions, policy) is Ok {
        lemma_build_ok(definitions, policy);
        let built = LayoutModel::build(definitions, policy)->Ok_0;
        assert(built.definitions()[i] == definitions[i]);
        assert(built.definitions()[j] == definitions[j]);
        assert(built.members[i].name != built.members[j].name);
    }
}

/// Where a name occurs a second time, and the attributes before that place
/// build a layout, the error is that of a duplicate name.
pub proof fn lemma_repeated_name_is_reported(
    definitions: Seq<DefinitionModel>,
    policy: FieldAlignment,
    i: int,
    j: int,
)
    requires
        0 <= i < j < definitions.len(),
        definitions[i].name == definitions[j].name,
        LayoutModel::build(definitions.take(j), policy) is Ok,
    ensures
        LayoutModel::build(definitions, policy) == Err::<LayoutModel, LayoutError>(
            LayoutError::DuplicateAttributeName,
        ),
{
    let prefix = definitions.take(j);
    lemma_build_ok(prefix, policy);
    let before = LayoutModel::build(prefix, policy)->Ok_0;
    assert(definitions.take(j + 1).drop_last() =~= prefix);
    assert(definitions.take(j + 1).last() == definitions[j]);
    assert(before.definitions()[i] == prefix[i]);
    assert(before.names()[i] == definitions[j].name);
    assert(before.names().contains(definitions[j].name));
    lemma_build_prefix_error(definitions, j + 1, policy);
}

/// Under the default policy a layout of `n` attributes takes at most `40 n`
/// bytes and is aligned to at most 8 bytes, so that building is refused for
/// a repeated name only, as long as `40 n` bytes can be represented.
pub proof fn lemma_default_build_is_small(definitions: Seq<DefinitionModel>)
    requires
        40 * definitions.len() <= MAX_RECORD_SIZE,
    ensures
        match LayoutModel::build(definitions, FieldAlignment::Default) {
            Ok(layout) => layout.size <= 40 * definitions.len() && layout.alignment <= 8,
            Err(e) => e == LayoutError::DuplicateAttributeName,
        },
    decreases definitions.len(),
{
    if definitions.len() > 0 {
        let init = definitions.drop_last();
        let last = definitions.last();
        lemma_default_build_is_small(init);
        if LayoutModel::build(init, FieldAlignment::Default) is Ok {
            lemma_build_ok(init, FieldAlignment::Default);
            let before = LayoutModel::build(init, FieldAlignment::Default)->Ok_0;
            let next = before.placed(last, FieldAlignment::Default);
            last.datatype.lemma_size_positive();
            lemma_power_of_two_positive(before.alignment as int);
            let cursor = before.packed_offset_of_next_field();
            assert(cursor <= before.size) by {
                if before.members.len() > 0 {
                    assert(before.members[before.members.len() - 1].end() <= before.size);
                }
            }
            lemma_align_up_is_multiple(cursor as int, last.datatype.spec_min_alignment() as int);
            let end = next.members.last().end();
            lemma_align_up_is_multiple(
                vstd::math::max(before.size as int, end as int),
                next.alignment as int,
            );
        }
    } else {
        reveal(is_pow2);
    }
}

/// Under the default policy a sequence of definitions in which a name
/// occurs twice is refused for the duplicate name, as long as 40 bytes for
/// each definition can be represented.
pub proof fn lemma_default_repeated_name_is_reported(
    definitions: Seq<DefinitionModel>,
    i: int,
    j: int,
)
    requires
        0 <= i < j < definitions.len(),
        definitions[i].name == definitions[j].name,
        40 * definitions.len() <= MAX_RECORD_SIZE,
    ensures
        LayoutModel::build(definitions, FieldAlignment::Default) == Err::<LayoutModel, LayoutError>(
            LayoutError::DuplicateAttributeName,
        ),
{
    lemma_default_build_is_small(definitions);
    lemma_repeated_name_builds_nothing(definitions, FieldAlignment::Default, i, j);
}

/// Members of which two share a name make no layout, whatever their
/// offsets and the alignment.
pub proof fn lemma_repeated_name_in_members(
    members: Seq<MemberModel>,
    alignment: nat,
    i: int,
    j: int,
)
    requires
        0 <= i < j < members.len(),
        members[i].name == members[j].name,
    ensures
        LayoutModel::from_members(members, alignment) == Err::<LayoutModel, LayoutError>(
            LayoutError::DuplicateAttributeName,
        ),
{
}

/// A layout made of given members is well formed, and no two of its
/// members share a byte.
pub proof fn lemma_from_members_ok(members: Seq<MemberModel>, alignment: nat)
    requires
        LayoutModel::from_members(members, alignment) is Ok,
    ensures
        LayoutModel::from_members(members, alignment)->Ok_0.wf(),
        non_overlapping(LayoutModel::from_members(members, alignment)->Ok_0.members),
{
    lemma_power_of_two_positive(alignment as int);
    lemma_align_up_is_multiple(max_end(members) as int, alignment as int);
    lemma_max_end_covers(members);
}

} // verus!
