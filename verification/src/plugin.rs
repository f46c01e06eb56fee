//! The plugin itself: who it is and which node types it brings.

use crate::error::{PluginError, PluginErrorView};
use crate::hello_world::HelloWorldNodeFactory;
use crate::math_add::MathAddNodeFactory;
use crate::node::NodeFactory;
use crate::registry::{after_register, holds, register_outcome, NodeRegistry};
use vstd::prelude::*;

verus! {

/// What a `PluginInfo` holds.
pub struct PluginInfoView {
    pub name: Seq<char>,
    pub version: Seq<char>,
    pub author: Seq<char>,
    pub description: Seq<char>,
    pub compatible_version: Seq<char>,
}

/// Who a plugin is, and the oldest host it works with.
#[derive(Debug, PartialEq, Eq)]
pub struct PluginInfo {
    pub name: String,
    pub version: String,
    pub author: String,
    pub description: String,
    pub compatible_version: String,
}

impl View for PluginInfo {
    type V = PluginInfoView;

    open spec fn view(&self) -> PluginInfoView {
        PluginInfoView {
            name: self.name@,
            version: self.version@,
            author: self.author@,
            description: self.description@,
            compatible_version: self.compatible_version@,
        }
    }
}

/// Who this plugin is.
pub open spec fn example_plugin_info() -> PluginInfoView {
    PluginInfoView {
        name: "Example Plugin"@,
        version: "0.1.0"@,
        author: "Plugin Developer"@,
        description: "An example plugin demonstrating basic functionality"@,
        compatible_version: "0.1.0"@,
    }
}

/// The greeting node type, as the plugin registers it.
pub open spec fn hello_world_factory() -> NodeFactory {
    NodeFactory::HelloWorld(HelloWorldNodeFactory)
}

/// The adding node type, as the plugin registers it.
pub open spec fn math_add_factory() -> NodeFactory {
    NodeFactory::MathAdd(MathAddNodeFactory)
}

/// The registry after the plugin offered its node types: the greeting node
/// first, and the adding node only if the greeting node was accepted.
pub open spec fn after_register_nodes(factories: Seq<NodeFactory>) -> Seq<NodeFactory> {
    if holds(factories, hello_world_factory().type_id()) {
        factories
    } else {
        after_register(after_register(factories, hello_world_factory()), math_add_factory())
    }
}

/// What the plugin reports after offering its node types: the first refusal
/// it met, if any.
pub open spec fn register_nodes_outcome(factories: Seq<NodeFactory>) -> Result<
    (),
    PluginErrorView,
> {
    if register_outcome(factories, hello_world_factory()) is Err {
        register_outcome(factories, hello_world_factory())
    } else {
        register_outcome(after_register(factories, hello_world_factory()), math_add_factory())
    }
}

/// The two node types of the plugin have different identifiers.
pub proof fn lemma_type_ids_differ()
    ensures
        hello_world_factory().type_id() != math_add_factory().type_id(),
{
    reveal_strlit("HelloWorld");
    reveal_strlit("Add");
    assert("HelloWorld"@.len() != "Add"@.len());
}

/// On a registry that holds neither of its node types, the plugin registers
/// both, the greeting node before the adding node, and reports success. On a
/// registry that holds the greeting node, it registers nothing and reports
/// that type as a duplicate.
pub proof fn lemma_register_nodes(factories: Seq<NodeFactory>)
    ensures
        !holds(factories, hello_world_factory().type_id()) && !holds(
            factories,
            math_add_factory().type_id(),
        ) ==> register_nodes_outcome(factories) is Ok && after_register_nodes(factories)
            == factories.push(hello_world_factory()).push(math_add_factory()),
        holds(factories, hello_world_factory().type_id()) ==> register_nodes_outcome(factories)
            == Err::<(), PluginErrorView>(
            PluginErrorView::DuplicateType(hello_world_factory().type_id()),
        ) && after_register_nodes(factories) == factories,
        !holds(factories, hello_world_factory().type_id()) && holds(
            factories,
            math_add_factory().type_id(),
        ) ==> register_nodes_outcome(factories) == Err::<(), PluginErrorView>(
            PluginErrorView::DuplicateType(math_add_factory().type_id()),
        ) && after_register_nodes(factories) == factories.push(hello_world_factory()),
{
    lemma_type_ids_differ();
    let once = factories.push(hello_world_factory());
    if !holds(factories, hello_world_factory().type_id()) {
        if holds(once, math_add_factory().type_id()) {
            let i = choose|i: int|
                0 <= i < once.len() && (#[trigger] once[i]).type_id()
                    == math_add_factory().type_id();
            assert(i < factories.len());
            assert(factories[i] == once[i]);
            assert(holds(factories, math_add_factory().type_id()));
        }
        if holds(factories, math_add_factory().type_id()) {
            let i = choose|i: int|
                0 <= i < factories.len() && (#[trigger] factories[i]).type_id()
                    == math_add_factory().type_id();
            assert(once[i] == factories[i]);
            assert(holds(once, math_add_factory().type_id()));
        }
    }
}

/// The plugin.
#[derive(Clone, Copy, Debug, PartialEq, Eq, Structural)]
pub struct ExamplePlugin;

impl ExamplePlugin {
    /// Who this plugin is; the same at every call.
    pub fn plugin_info(&self) -> (info: PluginInfo)
        ensures
            info@ == example_plugin_info(),
    {
        PluginInfo {
            name: "Example Plugin".to_owned(),
            version: "0.1.0".to_owned(),
            author: "Plugin Developer".to_owned(),
            description: "An example plugin demonstrating basic functionality".to_owned(),
            compatible_version: "0.1.0".to_owned(),
        }
    }

    /// Registers the plugin's node types: the greeting node, then the adding
    /// node. It stops at the first refusal and reports it.
    pub fn register_nodes(&self, registry: &mut NodeRegistry) -> (outcome: Result<
        (),
        PluginError,
    >)
        ensures
            final(registry)@ == after_register_nodes(old(registry)@),
            match outcome {
                Ok(_) => register_nodes_outcome(old(registry)@) is Ok,
                Err(error) => register_nodes_outcome(old(registry)@) == Err::<
                    (),
                    PluginErrorView,
                >(error@),
            },
    {
        match registry.register_node_factory(NodeFactory::HelloWorld(HelloWorldNodeFactory)) {
            Ok(_) => {},
            Err(error) => {
                return Err(error);
            },
        }
        registry.register_node_factory(NodeFactory::MathAdd(MathAddNodeFactory))
    }

    /// Called once after the plugin was loaded. There is nothing to set up.
    pub fn on_load(&self) -> (outcome: Result<(), PluginError>)
        ensures
            outcome is Ok,
    {
        Ok(())
    }

    /// Called once before the plugin is unloaded. There is nothing to tear
    /// down.
    pub fn on_unload(&self) -> (outcome: Result<(), PluginError>)
        ensures
            outcome is Ok,
    {
        Ok(())
    }
}

} // verus!
