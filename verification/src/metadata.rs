//! The description of a node type: what a palette shows and a graph connects.

use crate::layout::Color32;
use crate::value::{distinct_port_names, PortDefinition, PortView};
use vstd::prelude::*;

verus! {

/// The palette section a node type is listed under.
#[derive(Clone, Copy, Debug, PartialEq, Eq, Structural)]
pub enum NodeCategory {
    Utility,
    Math,
}

/// What a `NodeMetadata` holds.
pub struct MetadataView {
    pub type_id: Seq<char>,
    pub display_name: Seq<char>,
    pub category: NodeCategory,
    pub description: Seq<char>,
    pub workspace_compatibility: Seq<Seq<char>>,
    pub color: Color32,
    pub icon: Seq<char>,
    pub inputs: Seq<PortView>,
    pub outputs: Seq<PortView>,
}

impl MetadataView {
    /// Port names are unique among the inputs and, separately, among the
    /// outputs.
    pub open spec fn well_formed(self) -> bool {
        &&& distinct_port_names(self.inputs)
        &&& distinct_port_names(self.outputs)
    }

    /// Whether an output port of the given name is declared.
    pub open spec fn declares_output(self, name: Seq<char>) -> bool {
        exists|i: int| 0 <= i < self.outputs.len() && (#[trigger] self.outputs[i]).name == name
    }
}

/// The description of a node type. A factory owns it; every instance of the
/// type shares it.
#[derive(Debug, PartialEq, Eq)]
pub struct NodeMetadata {
    /// The key under which a registry holds the type.
    pub type_id: String,
    pub display_name: String,
    pub category: NodeCategory,
    pub description: String,
    pub workspace_compatibility: Vec<String>,
    pub color: Color32,
    pub icon: String,
    pub inputs: Vec<PortDefinition>,
    pub outputs: Vec<PortDefinition>,
}

impl View for NodeMetadata {
    type V = MetadataView;

    open spec fn view(&self) -> MetadataView {
        MetadataView {
            type_id: self.type_id@,
            display_name: self.display_name@,
            category: self.category,
            description: self.description@,
            workspace_compatibility: self.workspace_compatibility.deep_view(),
            color: self.color,
            icon: self.icon@,
            inputs: self.inputs.deep_view(),
            outputs: self.outputs.deep_view(),
        }
    }
}

impl DeepView for NodeMetadata {
    type V = MetadataView;

    open spec fn deep_view(&self) -> MetadataView {
        self@
    }
}

} // verus!
