//! The binding between native value types and the catalog of data types.

mod private;

use vstd::prelude::*;
use vstd::layout::{align_of, size_of};
use nalgebra::{Vector3, Vector4};
use crate::layout::data_type::PointAttributeDataType;

verus! {

/// nalgebra's `Matrix`, of which its `Vector3` and `Vector4` are instances:
/// a value that is carried, never looked into.
#[verifier::external_type_specification]
#[verifier::external_body]
#[verifier::reject_recursive_types(T)]
#[verifier::reject_recursive_types(R)]
#[verifier::reject_recursive_types(C)]
#[verifier::reject_recursive_types(S)]
pub struct ExMatrix<T, R, C, S>(nalgebra::Matrix<T, R, C, S>);

/// nalgebra's `Const`, the number of rows or columns of a matrix as a
/// type.
#[verifier::external_type_specification]
#[verifier::external_body]
pub struct ExConst<const R: usize>(nalgebra::Const<R>);

/// nalgebra's `ArrayStorage`, the array that holds the components of a
/// vector of fixed size.
#[verifier::external_type_specification]
#[verifier::external_body]
#[verifier::reject_recursive_types(T)]
pub struct ExArrayStorage<T, const R: usize, const C: usize>(nalgebra::ArrayStorage<T, R, C>);

/// Marker trait for all types that can be used as primitive types within an
/// attribute definition. It maps each of them to its entry in the catalog
/// of data types. The trait is sealed: the catalog is closed, and so is the
/// set of types that are bound to it.
pub trait PrimitiveType: Copy + private::Sealed {
    /// The catalog entry of the implementing type.
    spec fn spec_data_type() -> PointAttributeDataType;

    /// Returns the catalog entry of the implementing type.
    fn data_type() -> (datatype: PointAttributeDataType)
        ensures
            datatype == Self::spec_data_type(),
    ;
}

impl PrimitiveType for u8 {
    open spec fn spec_data_type() -> PointAttributeDataType {
        PointAttributeDataType::U8
    }

    fn data_type() -> (datatype: PointAttributeDataType) {
        PointAttributeDataType::U8
    }
}

impl PrimitiveType for u16 {
    open spec fn spec_data_type() -> PointAttributeDataType {
        PointAttributeDataType::U16
    }

    fn data_type() -> (datatype: PointAttributeDataType) {
        PointAttributeDataType::U16
    }
}

impl PrimitiveType for u32 {
    open spec fn spec_data_type() -> PointAttributeDataType {
        PointAttributeDataType::U32
    }

    fn data_type() -> (datatype: PointAttributeDataType) {
        PointAttributeDataType::U32
    }
}

impl PrimitiveType for u64 {
    open spec fn spec_data_type() -> PointAttributeDataType {
        PointAttributeDataType::U64
    }

    fn data_type() -> (datatype: PointAttributeDataType) {
        PointAttributeDataType::U64
    }
}

impl PrimitiveType for i8 {
    open spec fn spec_data_type() -> PointAttributeDataType {
        PointAttributeDataType::I8
    }

    fn data_type() -> (datatype: PointAttributeDataType) {
        PointAttributeDataType::I8
    }
}

impl PrimitiveType for i16 {
    open spec fn spec_data_type() -> PointAttributeDataType {
        PointAttributeDataType::I16
    }

    fn data_type() -> (datatype: PointAttributeDataType) {
        PointAttributeDataType::I16
    }
}

impl PrimitiveType for i32 {
    open spec fn spec_data_type() -> PointAttributeDataType {
        PointAttributeDataType::I32
    }

    fn data_type() -> (datatype: PointAttributeDataType) {
        PointAttributeDataType::I32
    }
}

impl PrimitiveType for i64 {
    open spec fn spec_data_type() -> PointAttributeDataType {
        PointAttributeDataType::I64
    }

    fn data_type() -> (datatype: PointAttributeDataType) {
        PointAttributeDataType::I64
    }
}

impl PrimitiveType for bool {
    open spec fn spec_data_type() -> PointAttributeDataType {
        PointAttributeDataType::Bool
    }

    fn data_type() -> (datatype: PointAttributeDataType) {
        PointAttributeDataType::Bool
    }
}

impl PrimitiveType for Vector3<u8> {
    open spec fn spec_data_type() -> PointAttributeDataType {
        PointAttributeDataType::Vec3u8
    }

    fn data_type() -> (datatype: PointAttributeDataType) {
        PointAttributeDataType::Vec3u8
    }
}

impl PrimitiveType for Vector3<u16> {
    open spec fn spec_data_type() -> PointAttributeDataType {
        PointAttributeDataType::Vec3u16
    }

    fn data_type() -> (datatype: PointAttributeDataType) {
        PointAttributeDataType::Vec3u16
    }
}

impl PrimitiveType for Vector4<u8> {
    open spec fn spec_data_type() -> PointAttributeDataType {
        PointAttributeDataType::Vec4u8
    }

    fn data_type() -> (datatype: PointAttributeDataType) {
        PointAttributeDataType::Vec4u8
    }
}

/// Tells whether the catalog describes the primitive type `T` as the build
/// target lays it out: whether the size and the minimum alignment of its
/// catalog entry are those of `T` in memory. Every layout rests on these
/// numbers, so a program checks them once before it trusts a layout.
pub fn agrees_with_native_layout<T: PrimitiveType>() -> (agrees: bool)
    ensures
        agrees == (size_of::<T>() == T::spec_data_type().spec_size() && align_of::<T>()
            == T::spec_data_type().spec_min_alignment()),
{
    let datatype = T::data_type();
    let native_size = core::mem::size_of::<T>();
    let native_alignment = core::mem::align_of::<T>();
    native_size as u64 == datatype.size() && native_alignment as u64 == datatype.min_alignment()
}

} // verus!
