//! A fluent builder for KDL document nodes.
//!
//! A [`KdlNodeBuilder`] collects a name, positional values, keyed properties
//! and child builders, and [`KdlNodeBuilder::build`] turns the whole subtree
//! into a [`KdlNode`]. Every builder has a mathematical view, and each
//! operation states how it changes that view.

pub mod document;
pub mod laws;
pub mod node;
pub mod properties;
pub mod registry;
pub mod value;
pub mod values;

pub use kdl::{KdlNode, KdlValue};
pub use crate::document::{node_model, property_map, NodeModel, Properties, PropertyModel};
pub use crate::node::{models, without_properties, without_values, KdlChildrenProxy, KdlNodeBuilder};
pub use crate::properties::{merge_properties, KdlPropertiesBuilder, KdlPropertiesProxy};
pub use crate::registry::{held_under, text_key, HashSetMap, HashSetMapBuilder};
pub use crate::value::KdlValueBuilder;
pub use crate::values::{KdlValuesBuilder, KdlValuesProxy};
