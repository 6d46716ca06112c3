//! The seal of the primitive types: a type outside this module cannot carry
//! it, so the set of primitive types is closed.

use vstd::prelude::*;
use nalgebra::{Vector3, Vector4};

verus! {

/// Carried by the primitive types, and by nothing else.
pub trait Sealed {

}

impl Sealed for u8 {

}

impl Sealed for u16 {

}

impl Sealed for u32 {

}

impl Sealed for u64 {

}

impl Sealed for i8 {

}

impl Sealed for i16 {

}

impl Sealed for i32 {

}

impl Sealed for i64 {

}

impl Sealed for bool {

}

impl Sealed for Vector3<u8> {

}

impl Sealed for Vector3<u16> {

}

impl Sealed for Vector4<u8> {

}

} // verus!
