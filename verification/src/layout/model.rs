//! The mathematical model of a point layout, and the placement rules stated
//! over it.

use vstd::prelude::*;
use vstd::arithmetic::power2::is_pow2;
use vstd::math::{max, min};
use crate::layout::data_type::PointAttributeDataType;
use crate::layout::definition::{DefinitionModel, MemberModel};
use crate::math::{align_up, MAX_RECORD_SIZE};

verus! {

/// How a field is aligned when it is added to a layout.
#[derive(Debug, Clone, Copy, PartialEq, Eq, Structural)]
pub enum FieldAlignment {
    /// Natural alignment: every field is aligned as its data type requires.
    Default,
    /// Capped alignment: no field is aligned more strictly than the given
    /// number of bytes.
    Packed(u64),
}

/// Why a layout could not be built.
#[derive(Debug, Clone, Copy, PartialEq, Eq, Hash, Structural)]
pub enum LayoutError {
    /// Two attributes share a name.
    DuplicateAttributeName,
    /// The byte ranges of two attributes intersect.
    OverlappingAttributes,
    /// The record's size and alignment cannot be represented: the alignment
    /// is not a power of two, or the padded size is out of range.
    InvalidMemoryLayout,
}

impl LayoutError {
    /// What is said of this error.
    pub open spec fn spec_message(self) -> Seq<char> {
        match self {
            LayoutError::DuplicateAttributeName => "All attributes must have unique names!"@,
            LayoutError::OverlappingAttributes => {
                "All attributes must span non-overlapping memory regions!"@
            },
            LayoutError::InvalidMemoryLayout => "Could not create memory layout for PointLayout"@,
        }
    }

    /// Returns a sentence that says what went wrong.
    pub fn message(&self) -> (text: &'static str)
        ensures
            text@ == self.spec_message(),
    {
        match self {
            LayoutError::DuplicateAttributeName => "All attributes must have unique names!",
            LayoutError::OverlappingAttributes => {
                "All attributes must span non-overlapping memory regions!"
            },
            LayoutError::InvalidMemoryLayout => "Could not create memory layout for PointLayout",
        }
    }
}

impl FieldAlignment {
    /// The alignment that a field of type `datatype` gets under this policy.
    pub open spec fn field_alignment(self, datatype: PointAttributeDataType) -> nat {
        match self {
            FieldAlignment::Default => datatype.spec_min_alignment(),
            FieldAlignment::Packed(cap) => min(
                cap as int,
                datatype.spec_min_alignment() as int,
            ) as nat,
        }
    }
}

/// Two byte ranges share no byte.
pub open spec fn ranges_disjoint(a: MemberModel, b: MemberModel) -> bool {
    a.end() <= b.offset || b.end() <= a.offset
}

/// No two members of the sequence share a name.
pub open spec fn names_unique(members: Seq<MemberModel>) -> bool {
    forall|i: int, j: int|
        0 <= i < j < members.len() ==> (#[trigger] members[i]).name != (#[trigger] members[j]).name
}

/// No two members of the sequence share a byte.
pub open spec fn non_overlapping(members: Seq<MemberModel>) -> bool {
    forall|i: int, j: int|
        0 <= i < j < members.len() ==> ranges_disjoint(#[trigger] members[i], #[trigger] members[j])
}

/// The members lie in memory in the order in which they were added: every
/// member ends at or before the start of each member added after it.
pub open spec fn in_memory_order(members: Seq<MemberModel>) -> bool {
    forall|i: int, j: int|
        0 <= i < j < members.len() ==> (#[trigger] members[i]).end() <= (
        #[trigger] members[j]).offset
}

/// Every member starts at a multiple of the alignment that `policy` gives
/// to its data type.
pub open spec fn offsets_aligned(members: Seq<MemberModel>, policy: FieldAlignment) -> bool {
    forall|i: int|
        0 <= i < members.len() ==> policy.field_alignment(members[i].datatype) > 0 && (
        #[trigger] members[i]).offset % policy.field_alignment(members[i].datatype) == 0
}

/// The largest end offset among the members, 0 where there are none.
pub open spec fn max_end(members: Seq<MemberModel>) -> nat
    decreases members.len(),
{
    if members.len() == 0 {
        0
    } else {
        max(max_end(members.drop_last()) as int, members.last().end() as int) as nat
    }
}

/// A record of `size` bytes aligned to `alignment` bytes can be represented
/// when the alignment is a power of two and the size is in range.
pub open spec fn representable(size: nat, alignment: nat) -> bool {
    is_pow2(alignment as int) && size <= MAX_RECORD_SIZE
}

/// What a point layout stands for: its members in insertion order, and the
/// size and alignment of one record.
pub ghost struct LayoutModel {
    pub members: Seq<MemberModel>,
    pub size: nat,
    pub alignment: nat,
}

impl LayoutModel {
    /// The layout without members: no bytes, aligned to one byte.
    pub open spec fn empty() -> LayoutModel {
        LayoutModel { members: Seq::empty(), size: 0, alignment: 1 }
    }

    /// The names of the members, in insertion order.
    pub open spec fn names(self) -> Seq<Seq<char>> {
        self.members.map_values(|m: MemberModel| m.name)
    }

    /// The definitions of the members, in insertion order.
    pub open spec fn definitions(self) -> Seq<DefinitionModel> {
        self.members.map_values(|m: MemberModel| m.definition())
    }

    /// The invariant of every layout that was built: names are unique, the
    /// alignment is a power of two, the size is a multiple of it and in
    /// range, and no member reaches beyond the record.
    pub open spec fn wf(self) -> bool {
        &&& names_unique(self.members)
        &&& representable(self.size, self.alignment)
        &&& self.size % self.alignment == 0
        &&& forall|i: int|
            0 <= i < self.members.len() ==> (#[trigger] self.members[i]).end() <= self.size
    }

    /// Where the next field would start without any padding: behind the
    /// member that was added last.
    pub open spec fn packed_offset_of_next_field(self) -> nat {
        if self.members.len() == 0 {
            0
        } else {
            self.members.last().end()
        }
    }

    /// The record alignment after a field of `definition` has been added
    /// under `policy`: under the default policy the running maximum with the
    /// field's own alignment; under the packed policy the running minimum
    /// with the cap, where a layout without members constrains nothing.
    pub open spec fn alignment_with(
        self,
        definition: DefinitionModel,
        policy: FieldAlignment,
    ) -> nat {
        match policy {
            FieldAlignment::Default => max(
                self.alignment as int,
                definition.datatype.spec_min_alignment() as int,
            ) as nat,
            FieldAlignment::Packed(cap) => if self.members.len() == 0 {
                cap as nat
            } else {
                min(cap as int, self.alignment as int) as nat
            },
        }
    }

    /// The offset at which a field of `definition` is placed under `policy`:
    /// the unpadded offset rounded up to the field's alignment.
    pub open spec fn offset_for(self, definition: DefinitionModel, policy: FieldAlignment) -> nat {
        align_up(
            self.packed_offset_of_next_field() as int,
            policy.field_alignment(definition.datatype) as int,
        ) as nat
    }

    /// The layout with `definition` placed behind the last member, whether
    /// or not the outcome can be represented.
    pub open spec fn placed(
        self,
        definition: DefinitionModel,
        policy: FieldAlignment,
    ) -> LayoutModel {
        let offset = self.offset_for(definition, policy);
        let alignment = self.alignment_with(definition, policy);
        let end = offset + definition.datatype.spec_size();
        LayoutModel {
            members: self.members.push(definition.at(offset)),
            size: align_up(max(self.size as int, end as int), alignment as int) as nat,
            alignment,
        }
    }

    /// Adding one attribute: refused where the name is taken, and where the
    /// outcome cannot be represented.
    pub open spec fn add(self, definition: DefinitionModel, policy: FieldAlignment) -> Result<
        LayoutModel,
        LayoutError,
    > {
        let next = self.placed(definition, policy);
        if self.names().contains(definition.name) {
            Err(LayoutError::DuplicateAttributeName)
        } else if !representable(next.size, next.alignment) {
            Err(LayoutError::InvalidMemoryLayout)
        } else {
            Ok(next)
        }
    }

    /// Adding the attributes of `definitions` one after the other to the
    /// empty layout, all under `policy`; the first refusal ends it.
    pub open spec fn build(definitions: Seq<DefinitionModel>, policy: FieldAlignment) -> Result<
        LayoutModel,
        LayoutError,
    >
        decreases definitions.len(),
    {
        if definitions.len() == 0 {
            Ok(LayoutModel::empty())
        } else {
            match LayoutModel::build(definitions.drop_last(), policy) {
                Ok(layout) => layout.add(definitions.last(), policy),
                Err(e) => Err(e),
            }
        }
    }

    /// A layout of members at given offsets: refused where two names agree,
    /// where two byte ranges intersect, and where the padded extent of the
    /// members cannot be represented under `alignment`.
    pub open spec fn from_members(members: Seq<MemberModel>, alignment: nat) -> Result<
        LayoutModel,
        LayoutError,
    > {
        let size = align_up(max_end(members) as int, alignment as int) as nat;
        if !names_unique(members) {
            Err(LayoutError::DuplicateAttributeName)
        } else if !non_overlapping(members) {
            Err(LayoutError::OverlappingAttributes)
        } else if !representable(size, alignment) {
            Err(LayoutError::InvalidMemoryLayout)
        } else {
            Ok(LayoutModel { members, size, alignment })
        }
    }

    /// Two layouts hold the same attributes by name and data type, whatever
    /// their order and their offsets: both have as many members, and every
    /// member of the first has its name in the second, where the first
    /// member of that name has its data type.
    pub open spec fn same_attributes(self, other: LayoutModel) -> bool {
        &&& self.members.len() == other.members.len()
        &&& forall|i: int|
            0 <= i < self.members.len() ==> other.names().contains(
                (#[trigger] self.members[i]).name,
            ) && other.members[other.names().index_of_first(
                self.members[i].name,
            ).unwrap()].datatype == self.members[i].datatype
    }
}

} // verus!
