use example_plugin::error::PluginError;
use example_plugin::hello_world::HelloWorldNodeFactory;
use example_plugin::math_add::MathAddNodeFactory;
use example_plugin::node::NodeFactory;
use example_plugin::plugin::{ExamplePlugin, PluginInfo};
use example_plugin::registry::NodeRegistry;

#[test]
fn plugin_info_names_the_plugin() {
    let info = ExamplePlugin.plugin_info();
    assert_eq!(
        info,
        PluginInfo {
            name: "Example Plugin".to_string(),
            version: "0.1.0".to_string(),
            author: "Plugin Developer".to_string(),
            description: "An example plugin demonstrating basic functionality".to_string(),
            compatible_version: "0.1.0".to_string(),
        }
    );
}

#[test]
fn plugin_info_is_the_same_for_every_plugin_object() {
    let first = ExamplePlugin;
    let second = Box::new(ExamplePlugin);
    assert_eq!(first.plugin_info(), second.plugin_info());
    assert_eq!(first.plugin_info(), first.plugin_info());
}

#[test]
fn register_nodes_registers_both_types_in_order() {
    let mut registry = NodeRegistry::new();
    assert_eq!(ExamplePlugin.register_nodes(&mut registry), Ok(()));
    assert_eq!(registry.len(), 2);
    let listed = registry.list();
    assert_eq!(listed[0].type_id, "HelloWorld");
    assert_eq!(listed[1].type_id, "Add");
    assert_eq!(
        registry.lookup("HelloWorld"),
        Some(&NodeFactory::HelloWorld(HelloWorldNodeFactory))
    );
    assert_eq!(
        registry.lookup("Add"),
        Some(&NodeFactory::MathAdd(MathAddNodeFactory))
    );
}

#[test]
fn register_nodes_twice_reports_the_first_duplicate() {
    let mut registry = NodeRegistry::new();
    ExamplePlugin.register_nodes(&mut registry).unwrap();
    assert_eq!(
        ExamplePlugin.register_nodes(&mut registry),
        Err(PluginError::DuplicateType("HelloWorld".to_string()))
    );
    assert_eq!(registry.len(), 2);
}

#[test]
fn register_nodes_stops_at_a_taken_second_type() {
    let mut registry = NodeRegistry::new();
    registry.register_node_factory(NodeFactory::MathAdd(MathAddNodeFactory)).unwrap();
    assert_eq!(
        ExamplePlugin.register_nodes(&mut registry),
        Err(PluginError::DuplicateType("Add".to_string()))
    );
    assert_eq!(registry.len(), 2);
    let listed = registry.list();
    assert_eq!(listed[0].type_id, "Add");
    assert_eq!(listed[1].type_id, "HelloWorld");
}

#[test]
fn lifecycle_hooks_succeed() {
    assert_eq!(ExamplePlugin.on_load(), Ok(()));
    assert_eq!(ExamplePlugin.on_unload(), Ok(()));
}
