//! The point layout: an ordered collection of placed attributes together
//! with the size and alignment of one record.

use vstd::prelude::*;
use vstd::std_specs::cmp::PartialEqSpecImpl;
use crate::layout::definition::{same_text, PointAttributeDefinition, PointAttributeMember};
use crate::layout::lemmas::{
    lemma_add_keeps_memory_order, lemma_add_preserves_wf, lemma_build_ok, lemma_build_prefix_error,
    lemma_empty_wf, lemma_from_members_ok, lemma_max_end_prefix, lemma_power_of_two_positive,
};
use crate::layout::model::{
    in_memory_order, max_end, names_unique, non_overlapping, offsets_aligned, ranges_disjoint,
    FieldAlignment, LayoutError, LayoutModel,
};
use crate::layout::names::{
    lemma_first_occurrences_len, lemma_names_unique, member_names, unique_names,
};
use crate::layout::order::{
    copy_members, lemma_rearranged_non_overlapping, lemma_sorted_neighbours_disjoint,
    lemma_sorted_neighbours_overlap, member_models, sort_by_offset, sorted_by_offset,
};
use crate::math::{align_to, is_power_of_two, lemma_align_up_is_multiple, MAX_RECORD_SIZE};

verus! {

/// Describes the data layout of a single point in a point cloud: which
/// attributes a point has, in which order they were added, where each one
/// lies inside a record, and how large and how strictly aligned a record is.
///
/// Point data can be stored interleaved, with all attributes of one point
/// side by side, or per attribute, with all values of one attribute side by
/// side. Both arrangements are described by the same layout: the offsets
/// matter to the first only.
#[derive(Debug)]
pub struct PointLayout {
    attributes: Vec<PointAttributeMember>,
    record_size: u64,
    record_alignment: u64,
}

impl View for PointLayout {
    type V = LayoutModel;

    closed spec fn view(&self) -> LayoutModel {
        LayoutModel {
            members: self.attributes@.map_values(|m: PointAttributeMember| m@),
            size: self.record_size as nat,
            alignment: self.record_alignment as nat,
        }
    }
}

impl Clone for PointLayout {
    /// Returns a layout of the same members, size and alignment.
    fn clone(&self) -> (layout: Self)
        ensures
            layout@ == self@,
    {
        Self {
            attributes: copy_members(self.attributes.as_slice()),
            record_size: self.record_size,
            record_alignment: self.record_alignment,
        }
    }
}

/// Two layouts are equal when they hold members of the same names and data
/// types in the same order, and records of the same size and alignment. As
/// for single members, the offsets take no part.
impl PartialEq for PointLayout {
    fn eq(&self, other: &Self) -> (equal: bool) {
        if self.record_size != other.record_size || self.record_alignment
            != other.record_alignment || self.attributes.len() != other.attributes.len() {
            assert(self@.definitions().len() == self@.members.len());
            assert(other@.definitions().len() == other@.members.len());
            return false;
        }
        let n = self.attributes.len();
        let mut i: usize = 0;
        while i < n
            invariant
                n == self.attributes.len(),
                n == other.attributes.len(),
                i <= n,
                forall|k: int| 0 <= k < i ==> self@.definitions()[k] == other@.definitions()[k],
            decreases n - i,
        {
            assert(self.attributes@[i as int]@ == self@.members[i as int]);
            if self.attributes[i] != other.attributes[i] {
                assert(self@.definitions()[i as int] != other@.definitions()[i as int]);
                return false;
            }
            i += 1;
        }
        assert(self@.definitions() =~= other@.definitions());
        true
    }
}

impl PartialEqSpecImpl for PointLayout {
    open spec fn obeys_eq_spec() -> bool {
        true
    }

    open spec fn eq_spec(&self, other: &Self) -> bool {
        &&& self@.definitions() == other@.definitions()
        &&& self@.size == other@.size
        &&& self@.alignment == other@.alignment
    }
}

impl Default for PointLayout {
    /// Creates a new empty layout.
    fn default() -> (layout: Self)
        ensures
            layout@ == LayoutModel::empty(),
            layout@.wf(),
    {
        let layout = Self { attributes: Vec::new(), record_size: 0, record_alignment: 1 };
        proof {
            assert(layout@.members =~= Seq::empty());
            lemma_empty_wf();
        }
        layout
    }
}

impl PointLayout {
    /// Creates a layout from the given sequence of attributes. The
    /// attributes are aligned as their data types require, as the fields of
    /// a struct in C layout are.
    pub fn from_attributes(attributes: &[PointAttributeDefinition]) -> (outcome: Result<
        Self,
        LayoutError,
    >)
        ensures
            Self::built(outcome, attributes@, FieldAlignment::Default),
    {
        Self::from_attributes_aligned(attributes, FieldAlignment::Default)
    }

    /// Creates a layout from the given sequence of attributes, in which no
    /// attribute is aligned more strictly than `max_alignment` bytes, as the
    /// fields of a packed struct are.
    pub fn from_attributes_packed(attributes: &[PointAttributeDefinition], max_alignment: u64) -> (
        outcome: Result<Self, LayoutError>)
        ensures
            Self::built(outcome, attributes@, FieldAlignment::Packed(max_alignment)),
    {
        Self::from_attributes_aligned(attributes, FieldAlignment::Packed(max_alignment))
    }

    /// `outcome` is what building a layout from `attributes` under `policy`
    /// gives: the error of the placement rules, or the layout that they
    /// describe. That layout is well formed and holds the given attributes
    /// in their order, each behind the one before it, at a multiple of the
    /// alignment that the policy gives to its data type.
    pub open spec fn built(
        outcome: Result<Self, LayoutError>,
        attributes: Seq<PointAttributeDefinition>,
        policy: FieldAlignment,
    ) -> bool {
        let definitions = attributes.map_values(|d: PointAttributeDefinition| d@);
        match LayoutModel::build(definitions, policy) {
            Ok(layout) => {
                &&& outcome is Ok
                &&& outcome->Ok_0@ == layout
                &&& layout.wf()
                &&& layout.definitions() == definitions
                &&& in_memory_order(layout.members)
                &&& offsets_aligned(layout.members, policy)
            },
            Err(e) => outcome == Err::<Self, LayoutError>(e),
        }
    }

    /// Adds the attributes one after the other to an empty layout, all
    /// under the same policy.
    fn from_attributes_aligned(attributes: &[PointAttributeDefinition], policy: FieldAlignment) -> (
        outcome: Result<Self, LayoutError>)
        ensures
            Self::built(outcome, attributes@, policy),
    {
        let mut layout = Self::default();
        let ghost definitions = attributes@.map_values(|d: PointAttributeDefinition| d@);
        let n = attributes.len();
        let mut i: usize = 0;
        while i < n
            invariant
                n == attributes.len(),
                i <= n,
                definitions == attributes@.map_values(|d: PointAttributeDefinition| d@),
                layout@.wf(),
                LayoutModel::build(definitions.take(i as int), policy) == Ok::<
                    LayoutModel,
                    LayoutError,
                >(layout@),
            decreases n - i,
        {
            proof {
                assert(definitions.take(i + 1).drop_last() =~= definitions.take(i as int));
            }
            match layout.add_attribute(attributes[i], policy) {
                Ok(()) => {},
                Err(e) => {
                    proof {
                        lemma_build_prefix_error(definitions, i + 1, policy);
                    }
                    return Err(e);
                },
            }
            i += 1;
        }
        proof {
            assert(definitions.take(n as int) =~= definitions);
            lemma_build_ok(definitions, policy);
        }
        Ok(layout)
    }

    /// Creates a layout from members whose offsets are given, and from the
    /// alignment of the record. Nothing is placed: the members are checked
    /// for unique names and for byte ranges that do not intersect, and the
    /// size of the record is the end of the last member in memory, padded to
    /// `type_alignment`. The alignment is taken as given, whatever the data
    /// types of the members ask for.
    pub fn from_members_and_alignment(attributes: &[PointAttributeMember], type_alignment: u64) -> (
        outcome: Result<Self, LayoutError>)
        ensures
            match LayoutModel::from_members(member_models(attributes@), type_alignment as nat) {
                Ok(layout) => outcome is Ok && outcome->Ok_0@ == layout && layout.wf()
                    && non_overlapping(layout.members),
                Err(e) => outcome == Err::<Self, LayoutError>(e),
            },
    {
        let ghost models = member_models(attributes@);
        let unique_names = unique_names(attributes);
        proof {
            lemma_first_occurrences_len(member_names(attributes@));
            lemma_names_unique(attributes@);
        }
        if unique_names.len() != attributes.len() {
            return Err(LayoutError::DuplicateAttributeName);
        }
        let members = copy_members(attributes);
        let (sorted, Ghost(maps)) = sort_by_offset(copy_members(attributes));
        let ghost sorted_models = member_models(sorted@);
        proof {
            lemma_rearranged_non_overlapping(sorted_models, models, maps.0, maps.1);
        }
        let n = sorted.len();
        let mut next_idx: usize = 1;
        while next_idx < n
            invariant
                n == sorted.len(),
                1 <= next_idx,
                models == member_models(attributes@),
                sorted_models == member_models(sorted@),
                sorted_by_offset(sorted_models),
                names_unique(models),
                non_overlapping(sorted_models) == non_overlapping(models),
                forall|k: int|
                    0 < k < next_idx && k < n ==> sorted_models[k - 1].end() <= (
                    #[trigger] sorted_models[k]).offset,
            decreases n - next_idx,
        {
            let this_attribute = &sorted[next_idx - 1];
            let next_attribute = &sorted[next_idx];
            assert(next_attribute@ == sorted_models[next_idx as int]);
            assert(this_attribute@.offset <= next_attribute@.offset);
            if next_attribute.offset() - this_attribute.offset() < this_attribute.size() {
                proof {
                    lemma_sorted_neighbours_overlap(sorted_models, next_idx as int);
                }
                return Err(LayoutError::OverlappingAttributes);
            }
            next_idx += 1;
        }
        proof {
            lemma_sorted_neighbours_disjoint(sorted_models);
        }
        if !is_power_of_two(type_alignment) {
            return Err(LayoutError::InvalidMemoryLayout);
        }
        proof {
            lemma_power_of_two_positive(type_alignment as int);
            lemma_align_up_is_multiple(max_end(models) as int, type_alignment as int);
            if LayoutModel::from_members(models, type_alignment as nat) is Ok {
                lemma_from_members_ok(models, type_alignment as nat);
            }
        }
        let unaligned_size = match Self::largest_end(attributes) {
            Some(end) => end,
            None => { return Err(LayoutError::InvalidMemoryLayout); },
        };
        let size = match align_to(unaligned_size, type_alignment) {
            Some(size) => size,
            None => { return Err(LayoutError::InvalidMemoryLayout); },
        };
        if size > MAX_RECORD_SIZE {
            return Err(LayoutError::InvalidMemoryLayout);
        }
        Ok(Self { attributes: members, record_size: size, record_alignment: type_alignment })
    }

    /// The largest end offset among the members, 0 where there are none;
    /// nothing where it passes the 64-bit range.
    fn largest_end(attributes: &[PointAttributeMember]) -> (end: Option<u64>)
        ensures
            end == if max_end(member_models(attributes@)) <= u64::MAX {
                Some(max_end(member_models(attributes@)) as u64)
            } else {
                None::<u64>
            },
    {
        let ghost models = member_models(attributes@);
        let n = attributes.len();
        let mut largest: u64 = 0;
        let mut i: usize = 0;
        while i < n
            invariant
                n == attributes.len(),
                i <= n,
                models == member_models(attributes@),
                largest == max_end(models.take(i as int)),
            decreases n - i,
        {
            proof {
                assert(models.take(i + 1).drop_last() =~= models.take(i as int));
                lemma_max_end_prefix(models, i + 1);
            }
            match attributes[i].offset().checked_add(attributes[i].size()) {
                Some(end) => {
                    if end > largest {
                        largest = end;
                    }
                },
                None => {
                    return None;
                },
            }
            i += 1;
        }
        proof {
            assert(models.take(n as int) =~= models);
        }
        Some(largest)
    }

    /// Adds the given attribute to this layout, behind the attribute that
    /// was added last, at the offset that `field_alignment` asks for, and
    /// adjusts the alignment and the size of the record. Where the name is
    /// already taken, or the outcome cannot be represented, the layout stays
    /// as it was.
    pub fn add_attribute(
        &mut self,
        point_attribute: PointAttributeDefinition,
        field_alignment: FieldAlignment,
    ) -> (outcome: Result<(), LayoutError>)
        requires
            old(self)@.wf(),
        ensures
            match old(self)@.add(point_attribute@, field_alignment) {
                Ok(layout) => outcome is Ok && final(self)@ == layout,
                Err(e) => outcome == Err::<(), LayoutError>(e) && final(self)@ == old(self)@,
            },
            final(self)@.wf(),
            in_memory_order(old(self)@.members) ==> in_memory_order(final(self)@.members),
    {
        if self.has_attribute_with_name(point_attribute.name()) {
            return Err(LayoutError::DuplicateAttributeName);
        }
        let min_alignment = point_attribute.datatype().min_alignment();
        let alignment_requirement_of_field = match field_alignment {
            FieldAlignment::Default => min_alignment,
            FieldAlignment::Packed(max_alignment) => if max_alignment < min_alignment {
                max_alignment
            } else {
                min_alignment
            },
        };
        let current_max_alignment = self.record_alignment;
        let new_max_alignment = match field_alignment {
            FieldAlignment::Default => if current_max_alignment < min_alignment {
                min_alignment
            } else {
                current_max_alignment
            },
            FieldAlignment::Packed(max_alignment) => if self.attributes.len() == 0 {
                max_alignment
            } else if max_alignment < current_max_alignment {
                max_alignment
            } else {
                current_max_alignment
            },
        };
        let ghost next = self@.placed(point_attribute@, field_alignment);
        if !is_power_of_two(new_max_alignment) {
            return Err(LayoutError::InvalidMemoryLayout);
        }
        proof {
            lemma_power_of_two_positive(new_max_alignment as int);
            lemma_power_of_two_positive(self@.alignment as int);
        }
        let packed_offset = self.packed_offset_of_next_field();
        proof {
            lemma_align_up_is_multiple(packed_offset as int, alignment_requirement_of_field as int);
        }
        let offset = match align_to(packed_offset, alignment_requirement_of_field) {
            Some(offset) => offset,
            None => { return Err(LayoutError::InvalidMemoryLayout); },
        };
        let old_size = self.record_size;
        let attribute_end = offset + point_attribute.size();
        let new_size_unaligned = if old_size < attribute_end {
            attribute_end
        } else {
            old_size
        };
        let new_size = match align_to(new_size_unaligned, new_max_alignment) {
            Some(size) => size,
            None => { return Err(LayoutError::InvalidMemoryLayout); },
        };
        if new_size > MAX_RECORD_SIZE {
            return Err(LayoutError::InvalidMemoryLayout);
        }
        self.attributes.push(point_attribute.at_offset_in_type(offset));
        self.record_size = new_size;
        self.record_alignment = new_max_alignment;
        proof {
            assert(self@.members =~= next.members);
            lemma_add_preserves_wf(old(self)@, point_attribute@, field_alignment);
            if in_memory_order(old(self)@.members) {
                lemma_add_keeps_memory_order(old(self)@, point_attribute@, field_alignment);
            }
        }
        Ok(())
    }

    /// Returns the offset of the next field that could be added to this
    /// layout, without any alignment requirements: 0 in an empty layout,
    /// else the end of the attribute that was added last.
    fn packed_offset_of_next_field(&self) -> (offset: u64)
        requires
            self@.wf(),
        ensures
            offset == self@.packed_offset_of_next_field(),
    {
        if self.attributes.len() == 0 {
            0
        } else {
            let last_attribute = &self.attributes[self.attributes.len() - 1];
            assert(last_attribute@ == self@.members[self@.members.len() - 1]);
            last_attribute.offset() + last_attribute.size()
        }
    }

    /// Returns true if an attribute with the given name is part of this
    /// layout, whatever its data type.
    pub fn has_attribute_with_name(&self, attribute_name: &str) -> (found: bool)
        ensures
            found == self@.names().contains(attribute_name@),
    {
        proof {
            self@.names().index_of_first_ensures(attribute_name@);
        }
        self.position_of_name(attribute_name).is_some()
    }

    /// The place of the first attribute with the given name.
    fn position_of_name(&self, attribute_name: &str) -> (position: Option<usize>)
        ensures
            match self@.names().index_of_first(attribute_name@) {
                Some(i) => position is Some && position->Some_0 == i && 0 <= i
                    < self@.members.len() && self@.members[i].name == attribute_name@,
                None => position is None,
            },
    {
        let ghost names = self@.names();
        let n = self.attributes.len();
        let mut i: usize = 0;
        while i < n
            invariant
                n == self.attributes.len(),
                i <= n,
                names == self@.names(),
                forall|j: int| 0 <= j < i ==> names[j] != attribute_name@,
            decreases n - i,
        {
            if same_text(self.attributes[i].name(), attribute_name) {
                proof {
                    names.index_of_first_ensures(attribute_name@);
                    assert(names[i as int] == attribute_name@);
                }
                return Some(i);
            }
            i += 1;
        }
        proof {
            names.index_of_first_ensures(attribute_name@);
        }
        None
    }

    /// The place of the first attribute with the name and data type of the
    /// given definition.
    fn position_of(&self, attribute: &PointAttributeDefinition) -> (position: Option<usize>)
        ensures
            match self@.definitions().index_of_first(attribute@) {
                Some(i) => position is Some && position->Some_0 == i && 0 <= i
                    < self@.members.len() && self@.members[i].definition() == attribute@,
                None => position is None,
            },
    {
        let ghost definitions = self@.definitions();
        let n = self.attributes.len();
        let mut i: usize = 0;
        while i < n
            invariant
                n == self.attributes.len(),
                i <= n,
                definitions == self@.definitions(),
                forall|j: int| 0 <= j < i ==> definitions[j] != attribute@,
            decreases n - i,
        {
            let this_attribute = &self.attributes[i];
            if same_text(this_attribute.name(), attribute.name()) && this_attribute.datatype()
                == attribute.datatype() {
                proof {
                    definitions.index_of_first_ensures(attribute@);
                }
                return Some(i);
            }
            assert(definitions[i as int] == this_attribute@.definition());
            i += 1;
        }
        proof {
            definitions.index_of_first_ensures(attribute@);
        }
        None
    }

    /// Returns `true` if this layout contains the given attribute: both the
    /// name and the data type must match.
    pub fn has_attribute(&self, attribute: &PointAttributeDefinition) -> (found: bool)
        ensures
            found == self@.definitions().contains(attribute@),
    {
        proof {
            self@.definitions().index_of_first_ensures(attribute@);
        }
        self.position_of(attribute).is_some()
    }

    /// Returns the attribute that matches the given definition in name and
    /// data type: the first such attribute in insertion order, or `None` if
    /// there is none.
    pub fn get_attribute(&self, attribute: &PointAttributeDefinition) -> (member: Option<
        &PointAttributeMember,
    >)
        ensures
            match self@.definitions().index_of_first(attribute@) {
                Some(i) => member is Some && member->Some_0@ == self@.members[i],
                None => member is None,
            },
    {
        match self.position_of(attribute) {
            Some(i) => {
                Some(&self.attributes[i])
            },
            None => None,
        }
    }

    /// Returns the attribute with the given name: the first such attribute
    /// in insertion order, or `None` if there is none.
    pub fn get_attribute_by_name(&self, attribute_name: &str) -> (member: Option<
        &PointAttributeMember,
    >)
        ensures
            match self@.names().index_of_first(attribute_name@) {
                Some(i) => member is Some && member->Some_0@ == self@.members[i],
                None => member is None,
            },
    {
        match self.position_of_name(attribute_name) {
            Some(i) => {
                Some(&self.attributes[i])
            },
            None => None,
        }
    }

    /// Returns the index of the given attribute in insertion order, which
    /// need not be its place in memory, or `None` if the attribute is not
    /// part of this layout.
    pub fn index_of(&self, attribute: &PointAttributeDefinition) -> (index: Option<usize>)
        ensures
            match self@.definitions().index_of_first(attribute@) {
                Some(i) => index is Some && index->Some_0 == i,
                None => index is None,
            },
    {
        self.position_of(attribute)
    }

    /// Returns the byte offset of the given attribute, or `None` if the
    /// attribute is not part of this layout.
    pub fn offset_of(&self, attribute: &PointAttributeDefinition) -> (offset: Option<u64>)
        ensures
            match self@.definitions().index_of_first(attribute@) {
                Some(i) => offset is Some && offset->Some_0 == self@.members[i].offset,
                None => offset is None,
            },
    {
        match self.position_of(attribute) {
            Some(i) => {
                Some(self.attributes[i].offset())
            },
            None => None,
        }
    }

    /// Compares this layout with the `other` layout without regard to the
    /// offsets and to the order of the attributes: only names and data
    /// types are compared.
    pub fn compare_without_offsets(&self, other: &PointLayout) -> (same: bool)
        ensures
            same == self@.same_attributes(other@),
    {
        if self.attributes.len() != other.attributes.len() {
            return false;
        }
        let n = self.attributes.len();
        let mut i: usize = 0;
        while i < n
            invariant
                n == self.attributes.len(),
                n == other.attributes.len(),
                i <= n,
                forall|k: int|
                    0 <= k < i ==> other@.names().contains((#[trigger] self@.members[k]).name)
                        && other@.members[other@.names().index_of_first(
                        self@.members[k].name,
                    ).unwrap()].datatype == self@.members[k].datatype,
            decreases n - i,
        {
            let self_attribute = &self.attributes[i];
            assert(self_attribute@ == self@.members[i as int]);
            proof {
                other@.names().index_of_first_ensures(self_attribute@.name);
            }
            let matches = match other.get_attribute_by_name(self_attribute.name()) {
                Some(other_attribute) => other_attribute.datatype() == self_attribute.datatype(),
                None => false,
            };
            if !matches {
                return false;
            }
            i += 1;
        }
        true
    }

    /// Returns the size in bytes of a single point entry with this layout.
    /// The size can be larger than the sum of the sizes of all attributes,
    /// because of alignment.
    pub fn size_of_point_entry(&self) -> (bytes: u64)
        ensures
            bytes == self@.size,
    {
        self.record_size
    }

    /// Returns the alignment in bytes of a single point entry.
    pub fn alignment_of_point_entry(&self) -> (bytes: u64)
        ensures
            bytes == self@.alignment,
    {
        self.record_alignment
    }

    /// Returns the attribute at the given index, in insertion order.
    pub fn at(&self, index: usize) -> (member: &PointAttributeMember)
        requires
            index < self@.members.len(),
        ensures
            member@ == self@.members[index as int],
    {
        &self.attributes[index]
    }

    /// Returns all attributes of this layout, in the order in which they
    /// were added.
    pub fn attributes(&self) -> (members: &[PointAttributeMember])
        ensures
            members@.map_values(|m: PointAttributeMember| m@) == self@.members,
    {
        self.attributes.as_slice()
    }
}

} // verus!
