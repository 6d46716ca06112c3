//! Byte-level layout descriptions for point-cloud records: the catalog of
//! primitive attribute types, attribute definitions and placed members, and
//! the layout builder that assigns offsets, alignment and record size.

pub mod layout;
pub mod math;
