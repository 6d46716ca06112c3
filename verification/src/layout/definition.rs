//! Attribute definitions and their placement inside a record.

use vstd::prelude::*;
use vstd::std_specs::cmp::{PartialEqSpec, PartialEqSpecImpl};
use vstd::std_specs::convert::FromSpecImpl;
use crate::layout::data_type::PointAttributeDataType;

verus! {

/// What an attribute definition stands for: its name and its data type.
pub ghost struct DefinitionModel {
    pub name: Seq<char>,
    pub datatype: PointAttributeDataType,
}

/// What a placed attribute stands for: a definition and a byte offset.
pub ghost struct MemberModel {
    pub name: Seq<char>,
    pub datatype: PointAttributeDataType,
    pub offset: nat,
}

impl MemberModel {
    /// The definition that was placed.
    pub open spec fn definition(self) -> DefinitionModel {
        DefinitionModel { name: self.name, datatype: self.datatype }
    }

    /// Number of bytes the attribute occupies.
    pub open spec fn size(self) -> nat {
        self.datatype.spec_size()
    }

    /// Offset of the first byte behind the attribute.
    pub open spec fn end(self) -> nat {
        self.offset + self.datatype.spec_size()
    }
}

impl DefinitionModel {
    /// This definition placed at `offset`.
    pub open spec fn at(self, offset: nat) -> MemberModel {
        MemberModel { name: self.name, datatype: self.datatype, offset }
    }
}

/// Equality of two strings, character by character, as `str::eq` of the
/// standard library decides it.
#[verifier::external_body]
pub(crate) fn same_text(a: &str, b: &str) -> (equal: bool)
    ensures
        equal == (a@ == b@),
{
    a.eq(b)
}

/// A definition for a single point attribute of a point cloud, such as the
/// position, the GPS time or the intensity. An attribute is identified by
/// its name together with the data type of one record of it.
#[derive(Debug, Clone, Copy, Eq, Hash)]
pub struct PointAttributeDefinition {
    name: &'static str,
    datatype: PointAttributeDataType,
}

impl View for PointAttributeDefinition {
    type V = DefinitionModel;

    closed spec fn view(&self) -> DefinitionModel {
        DefinitionModel { name: self.name@, datatype: self.datatype }
    }
}

impl PointAttributeDefinition {
    /// Creates a new custom definition with the given name and data type.
    pub fn custom(name: &'static str, datatype: PointAttributeDataType) -> (definition: Self)
        ensures
            definition@ == (DefinitionModel { name: name@, datatype }),
    {
        Self { name, datatype }
    }

    /// Returns the name of this definition.
    pub fn name(&self) -> (name: &'static str)
        ensures
            name@ == self@.name,
    {
        self.name
    }

    /// Returns the data type of this definition.
    pub fn datatype(&self) -> (datatype: PointAttributeDataType)
        ensures
            datatype == self@.datatype,
    {
        self.datatype
    }

    /// Returns the size in bytes of one record of this attribute.
    pub fn size(&self) -> (bytes: u64)
        ensures
            bytes == self@.datatype.spec_size(),
    {
        self.datatype.size()
    }

    /// Returns a definition with the same name and a different data type.
    pub fn with_custom_datatype(&self, new_datatype: PointAttributeDataType) -> (definition: Self)
        ensures
            definition@ == (DefinitionModel { name: self@.name, datatype: new_datatype }),
    {
        Self { name: self.name, datatype: new_datatype }
    }

    /// The definition that `member` places: its name and data type, without
    /// the offset.
    pub closed spec fn of_member(member: PointAttributeMember) -> Self {
        Self { name: member.name, datatype: member.datatype }
    }

    /// The definition of a member has the member's name and data type.
    pub proof fn lemma_of_member(member: PointAttributeMember)
        ensures
            Self::of_member(member)@ == member@.definition(),
    {
    }

    /// The definition taken from a member and placed again, at whatever
    /// offset, is a member equal to the first: the offset takes no part in
    /// the identity of a member.
    pub proof fn lemma_placed_again_is_equal(
        member: PointAttributeMember,
        placed_again: PointAttributeMember,
        offset: nat,
    )
        requires
            placed_again@ == Self::of_member(member)@.at(offset),
        ensures
            PartialEqSpec::eq_spec(&placed_again, &member),
            PartialEqSpec::eq_spec(&member, &placed_again),
            Self::of_member(placed_again)@ == Self::of_member(member)@,
    {
    }

    /// Places this definition at the byte offset `offset` of a record. The
    /// offset is taken as given: a layout checks it when the member is added.
    pub fn at_offset_in_type(&self, offset: u64) -> (member: PointAttributeMember)
        ensures
            member@ == self@.at(offset as nat),
    {
        PointAttributeMember { datatype: self.datatype, name: self.name, offset }
    }
}

impl PartialEq for PointAttributeDefinition {
    fn eq(&self, other: &Self) -> (equal: bool) {
        same_text(self.name, other.name) && self.datatype == other.datatype
    }
}

impl PartialEqSpecImpl for PointAttributeDefinition {
    open spec fn obeys_eq_spec() -> bool {
        true
    }

    open spec fn eq_spec(&self, other: &Self) -> bool {
        self@ == other@
    }
}

/// A point attribute placed inside a record: a definition together with the
/// byte offset of the attribute from the start of the record.
#[derive(Debug, Clone, Copy, Eq)]
pub struct PointAttributeMember {
    name: &'static str,
    datatype: PointAttributeDataType,
    offset: u64,
}

impl View for PointAttributeMember {
    type V = MemberModel;

    closed spec fn view(&self) -> MemberModel {
        MemberModel { name: self.name@, datatype: self.datatype, offset: self.offset as nat }
    }
}

impl PointAttributeMember {
    /// Creates a member with the given name, data type and byte offset.
    pub fn custom(name: &'static str, datatype: PointAttributeDataType, offset: u64) -> (member:
        Self)
        ensures
            member@ == (MemberModel { name: name@, datatype, offset: offset as nat }),
    {
        Self { name, datatype, offset }
    }

    /// Returns the name of this member.
    pub fn name(&self) -> (name: &'static str)
        ensures
            name@ == self@.name,
    {
        self.name
    }

    /// Returns the data type of this member.
    pub fn datatype(&self) -> (datatype: PointAttributeDataType)
        ensures
            datatype == self@.datatype,
    {
        self.datatype
    }

    /// Returns the byte offset of this member.
    pub fn offset(&self) -> (offset: u64)
        ensures
            offset == self@.offset,
    {
        self.offset
    }

    /// Returns the size in bytes of this member.
    pub fn size(&self) -> (bytes: u64)
        ensures
            bytes == self@.size(),
    {
        match self.datatype {
            PointAttributeDataType::Bool => 1,
            PointAttributeDataType::F32 => 4,
            PointAttributeDataType::F64 => 8,
            PointAttributeDataType::I8 => 1,
            PointAttributeDataType::I16 => 2,
            PointAttributeDataType::I32 => 4,
            PointAttributeDataType::I64 => 8,
            PointAttributeDataType::U8 => 1,
            PointAttributeDataType::U16 => 2,
            PointAttributeDataType::U32 => 4,
            PointAttributeDataType::U64 => 8,
            PointAttributeDataType::Vec3f32 => 3 * 4,
            PointAttributeDataType::Vec3f64 => 3 * 8,
            PointAttributeDataType::Vec3u16 => 3 * 2,
            PointAttributeDataType::Vec3u8 => 3,
            PointAttributeDataType::Vec4u8 => 4,
        }
    }
}

/// Two members are equal when their names and data types are: the offset
/// takes no part in a member's identity.
impl PartialEq for PointAttributeMember {
    fn eq(&self, other: &Self) -> (equal: bool) {
        same_text(self.name, other.name) && self.datatype == other.datatype
    }
}

impl PartialEqSpecImpl for PointAttributeMember {
    open spec fn obeys_eq_spec() -> bool {
        true
    }

    open spec fn eq_spec(&self, other: &Self) -> bool {
        self@.definition() == other@.definition()
    }
}

impl From<PointAttributeMember> for PointAttributeDefinition {
    fn from(attribute: PointAttributeMember) -> (definition: Self) {
        Self { datatype: attribute.datatype, name: attribute.name }
    }
}

impl FromSpecImpl<PointAttributeMember> for PointAttributeDefinition {
    open spec fn obeys_from_spec() -> bool {
        true
    }

    open spec fn from_spec(attribute: PointAttributeMember) -> Self {
        Self::of_member(attribute)
    }
}

impl<'a> From<&'a PointAttributeMember> for PointAttributeDefinition {
    fn from(attribute: &'a PointAttributeMember) -> (definition: Self) {
        Self { datatype: attribute.datatype, name: attribute.name }
    }
}

impl<'a> FromSpecImpl<&'a PointAttributeMember> for PointAttributeDefinition {
    open spec fn obeys_from_spec() -> bool {
        true
    }

    open spec fn from_spec(attribute: &'a PointAttributeMember) -> Self {
        Self::of_member(*attribute)
    }
}

} // verus!
