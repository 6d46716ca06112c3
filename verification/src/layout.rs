//! Attribute data types, attribute definitions and point layouts.

pub mod attributes;
pub mod data_type;
pub mod definition;
pub mod display;
pub mod equivalence;
pub mod lemmas;
pub mod model;
pub mod names;
pub mod order;
pub mod point_layout;
pub mod primitive;

pub use data_type::PointAttributeDataType;
pub use definition::{DefinitionModel, MemberModel, PointAttributeDefinition, PointAttributeMember};
pub use model::{FieldAlignment, LayoutError, LayoutModel};
pub use point_layout::PointLayout;
pub use primitive::{agrees_with_native_layout, PrimitiveType};
