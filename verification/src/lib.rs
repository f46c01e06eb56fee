//! A plugin for a node-graph editor: two node types, the registry they are
//! published in, and the parameter protocol between a node and its editor.
//!
//! Numbers are single-precision and held as bit patterns (`Scalar`). Where a
//! node needs the sum of two of them, or the text of a sum, the caller hands
//! in the function that computes it.
//!
//! Every node takes its identifier from an `IdGenerator`. The nodes that draw
//! from one generator have identifiers that all differ.

pub mod error;
pub mod hello_world;
pub mod ident;
pub mod layout;
pub mod math_add;
pub mod metadata;
pub mod node;
pub mod plugin;
pub mod ports;
pub mod registry;
pub mod text;
pub mod ui;
pub mod value;

pub use crate::error::PluginError;
pub use crate::hello_world::{HelloWorldNode, HelloWorldNodeFactory};
pub use crate::ident::IdGenerator;
pub use crate::layout::{Color32, Pos2};
pub use crate::math_add::{MathAddNode, MathAddNodeFactory};
pub use crate::metadata::{NodeCategory, NodeMetadata};
pub use crate::node::{NodeFactory, PluginNode};
pub use crate::plugin::{ExamplePlugin, PluginInfo};
pub use crate::ports::PortValues;
pub use crate::registry::NodeRegistry;
pub use crate::ui::{ParameterChange, ParameterUI, UIAction, UIElement};
pub use crate::value::{DataType, NodeData, PortDefinition, Scalar};
