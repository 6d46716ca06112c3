//! The closed catalog of primitive attribute data types.

use vstd::prelude::*;
use vstd::arithmetic::power2::is_pow2;

verus! {

/// Possible data types for individual point attributes.
#[derive(Debug, Copy, Clone, PartialEq, Eq, Hash, Structural)]
pub enum PointAttributeDataType {
    /// An unsigned 8-bit integer.
    U8,
    /// A signed 8-bit integer.
    I8,
    /// An unsigned 16-bit integer.
    U16,
    /// A signed 16-bit integer.
    I16,
    /// An unsigned 32-bit integer.
    U32,
    /// A signed 32-bit integer.
    I32,
    /// An unsigned 64-bit integer.
    U64,
    /// A signed 64-bit integer.
    I64,
    /// A single-precision IEEE value.
    F32,
    /// A double-precision IEEE value.
    F64,
    /// A boolean value.
    Bool,
    /// Three unsigned 8-bit components.
    Vec3u8,
    /// Three unsigned 16-bit components.
    Vec3u16,
    /// Three single-precision components.
    Vec3f32,
    /// Three double-precision components.
    Vec3f64,
    /// Four unsigned 8-bit components.
    Vec4u8,
}

impl PointAttributeDataType {
    /// Number of components of a value of this type: 1 for scalars.
    pub open spec fn component_count(self) -> nat {
        match self {
            PointAttributeDataType::Vec3u8
            | PointAttributeDataType::Vec3u16
            | PointAttributeDataType::Vec3f32
            | PointAttributeDataType::Vec3f64 => 3,
            PointAttributeDataType::Vec4u8 => 4,
            _ => 1,
        }
    }

    /// Width in bytes of one component: fixed by the bit width of the scalar.
    pub open spec fn scalar_size(self) -> nat {
        match self {
            PointAttributeDataType::U8
            | PointAttributeDataType::I8
            | PointAttributeDataType::Bool
            | PointAttributeDataType::Vec3u8
            | PointAttributeDataType::Vec4u8 => 1,
            PointAttributeDataType::U16
            | PointAttributeDataType::I16
            | PointAttributeDataType::Vec3u16 => 2,
            PointAttributeDataType::U32
            | PointAttributeDataType::I32
            | PointAttributeDataType::F32
            | PointAttributeDataType::Vec3f32 => 4,
            PointAttributeDataType::U64
            | PointAttributeDataType::I64
            | PointAttributeDataType::F64
            | PointAttributeDataType::Vec3f64 => 8,
        }
    }

    /// Size in bytes of a value of this type.
    pub open spec fn spec_size(self) -> nat {
        match self {
            PointAttributeDataType::U8 => 1,
            PointAttributeDataType::I8 => 1,
            PointAttributeDataType::U16 => 2,
            PointAttributeDataType::I16 => 2,
            PointAttributeDataType::U32 => 4,
            PointAttributeDataType::I32 => 4,
            PointAttributeDataType::U64 => 8,
            PointAttributeDataType::I64 => 8,
            PointAttributeDataType::F32 => 4,
            PointAttributeDataType::F64 => 8,
            PointAttributeDataType::Bool => 1,
            PointAttributeDataType::Vec3u8 => 3,
            PointAttributeDataType::Vec3u16 => 6,
            PointAttributeDataType::Vec3f32 => 12,
            PointAttributeDataType::Vec3f64 => 24,
            PointAttributeDataType::Vec4u8 => 4,
        }
    }

    /// Minimum alignment in bytes of a value of this type.
    pub open spec fn spec_min_alignment(self) -> nat {
        match self {
            PointAttributeDataType::U8 => 1,
            PointAttributeDataType::I8 => 1,
            PointAttributeDataType::U16 => 2,
            PointAttributeDataType::I16 => 2,
            PointAttributeDataType::U32 => 4,
            PointAttributeDataType::I32 => 4,
            PointAttributeDataType::U64 => 8,
            PointAttributeDataType::I64 => 8,
            PointAttributeDataType::F32 => 4,
            PointAttributeDataType::F64 => 8,
            PointAttributeDataType::Bool => 1,
            PointAttributeDataType::Vec3u8 => 1,
            PointAttributeDataType::Vec3u16 => 2,
            PointAttributeDataType::Vec3f32 => 4,
            PointAttributeDataType::Vec3f64 => 8,
            PointAttributeDataType::Vec4u8 => 1,
        }
    }

    /// The components of a value lie side by side without padding, and a
    /// value is aligned as one of its components is: to the width of the
    /// scalar.
    pub proof fn lemma_size_of_components(self)
        ensures
            self.spec_size() == self.component_count() * self.scalar_size(),
            self.spec_min_alignment() == self.scalar_size(),
    {
    }

    /// The printed name of this type.
    pub open spec fn spec_display_name(self) -> Seq<char> {
        match self {
            PointAttributeDataType::U8 => "U8"@,
            PointAttributeDataType::I8 => "I8"@,
            PointAttributeDataType::U16 => "U16"@,
            PointAttributeDataType::I16 => "I16"@,
            PointAttributeDataType::U32 => "U32"@,
            PointAttributeDataType::I32 => "I32"@,
            PointAttributeDataType::U64 => "U64"@,
            PointAttributeDataType::I64 => "I64"@,
            PointAttributeDataType::F32 => "F32"@,
            PointAttributeDataType::F64 => "F64"@,
            PointAttributeDataType::Bool => "Bool"@,
            PointAttributeDataType::Vec3u8 => "Vec3<u8>"@,
            PointAttributeDataType::Vec3u16 => "Vec3<u16>"@,
            PointAttributeDataType::Vec3f32 => "Vec3<f32>"@,
            PointAttributeDataType::Vec3f64 => "Vec3<f64>"@,
            PointAttributeDataType::Vec4u8 => "Vec4<u8>"@,
        }
    }

    /// Every value takes at least one byte, and at least as many bytes as
    /// its alignment, which is a power of two.
    pub proof fn lemma_size_positive(self)
        ensures
            0 < self.spec_min_alignment() <= self.spec_size(),
            self.spec_size() <= 24,
            self.spec_min_alignment() <= 8,
            is_pow2(self.spec_min_alignment() as int),
    {
        reveal_with_fuel(is_pow2, 4);
    }

    /// Size in bytes of a value of this type.
    pub fn size(&self) -> (bytes: u64)
        ensures
            bytes == self.spec_size(),
    {
        match self {
            PointAttributeDataType::U8 => 1,
            PointAttributeDataType::I8 => 1,
            PointAttributeDataType::U16 => 2,
            PointAttributeDataType::I16 => 2,
            PointAttributeDataType::U32 => 4,
            PointAttributeDataType::I32 => 4,
            PointAttributeDataType::U64 => 8,
            PointAttributeDataType::I64 => 8,
            PointAttributeDataType::F32 => 4,
            PointAttributeDataType::F64 => 8,
            PointAttributeDataType::Bool => 1,
            PointAttributeDataType::Vec3u8 => 3,
            PointAttributeDataType::Vec3u16 => 6,
            PointAttributeDataType::Vec3f32 => 12,
            PointAttributeDataType::Vec3f64 => 24,
            PointAttributeDataType::Vec4u8 => 4,
        }
    }

    /// Minimum required alignment of a value of this type.
    pub fn min_alignment(&self) -> (alignment: u64)
        ensures
            alignment == self.spec_min_alignment(),
    {
        match self {
            PointAttributeDataType::U8 => 1,
            PointAttributeDataType::I8 => 1,
            PointAttributeDataType::U16 => 2,
            PointAttributeDataType::I16 => 2,
            PointAttributeDataType::U32 => 4,
            PointAttributeDataType::I32 => 4,
            PointAttributeDataType::U64 => 8,
            PointAttributeDataType::I64 => 8,
            PointAttributeDataType::F32 => 4,
            PointAttributeDataType::F64 => 8,
            PointAttributeDataType::Bool => 1,
            PointAttributeDataType::Vec3u8 => 1,
            PointAttributeDataType::Vec3u16 => 2,
            PointAttributeDataType::Vec3f32 => 4,
            PointAttributeDataType::Vec3f64 => 8,
            PointAttributeDataType::Vec4u8 => 1,
        }
    }

    /// The printed name of this type, such as `U16` or `Vec3<f64>`.
    pub fn display_name(&self) -> (name: &'static str)
        ensures
            name@ == self.spec_display_name(),
    {
        match self {
            PointAttributeDataType::U8 => "U8",
            PointAttributeDataType::I8 => "I8",
            PointAttributeDataType::U16 => "U16",
            PointAttributeDataType::I16 => "I16",
            PointAttributeDataType::U32 => "U32",
            PointAttributeDataType::I32 => "I32",
            PointAttributeDataType::U64 => "U64",
            PointAttributeDataType::I64 => "I64",
            PointAttributeDataType::F32 => "F32",
            PointAttributeDataType::F64 => "F64",
            PointAttributeDataType::Bool => "Bool",
            PointAttributeDataType::Vec3u8 => "Vec3<u8>",
            PointAttributeDataType::Vec3u16 => "Vec3<u16>",
            PointAttributeDataType::Vec3f32 => "Vec3<f32>",
            PointAttributeDataType::Vec3f64 => "Vec3<f64>",
            PointAttributeDataType::Vec4u8 => "Vec4<u8>",
        }
    }
}

} // verus!
