use example_plugin::error::PluginError;
use example_plugin::hello_world::HelloWorldNodeFactory;
use example_plugin::ident::IdGenerator;
use example_plugin::layout::Pos2;
use example_plugin::math_add::MathAddNodeFactory;
use example_plugin::node::{NodeFactory, PluginNode};
use example_plugin::ports::PortValues;
use example_plugin::registry::NodeRegistry;
use example_plugin::value::{NodeData, Scalar};

fn scalar(number: f32) -> Scalar {
    Scalar::from_bits(number.to_bits())
}

fn float(number: f32) -> NodeData {
    NodeData::Float(scalar(number))
}

fn float_sum(a: Scalar, b: Scalar) -> Scalar {
    scalar(f32::from_bits(a.to_bits()) + f32::from_bits(b.to_bits()))
}

#[test]
fn new_registry_is_empty() {
    let registry = NodeRegistry::new();
    assert_eq!(registry.len(), 0);
    assert!(registry.lookup("HelloWorld").is_none());
    assert!(registry.list().is_empty());
}

#[test]
fn registering_creates_no_node_and_adds_one_type() {
    let mut registry = NodeRegistry::new();
    assert_eq!(registry.register_node_factory(NodeFactory::MathAdd(MathAddNodeFactory)), Ok(()));
    assert_eq!(registry.len(), 1);
    assert_eq!(
        registry.lookup("Add"),
        Some(&NodeFactory::MathAdd(MathAddNodeFactory))
    );
    assert!(registry.lookup("HelloWorld").is_none());
    assert!(registry.lookup("add").is_none());
}

#[test]
fn duplicate_type_is_refused_and_size_stays_one() {
    let mut registry = NodeRegistry::new();
    assert_eq!(
        registry.register_node_factory(NodeFactory::HelloWorld(HelloWorldNodeFactory)),
        Ok(())
    );
    assert_eq!(
        registry.register_node_factory(NodeFactory::HelloWorld(HelloWorldNodeFactory)),
        Err(PluginError::DuplicateType("HelloWorld".to_string()))
    );
    assert_eq!(registry.len(), 1);
    assert_eq!(registry.list(), vec![HelloWorldNodeFactory.metadata()]);
}

#[test]
fn duplicate_does_not_disturb_other_types() {
    let mut registry = NodeRegistry::new();
    registry.register_node_factory(NodeFactory::HelloWorld(HelloWorldNodeFactory)).unwrap();
    registry.register_node_factory(NodeFactory::MathAdd(MathAddNodeFactory)).unwrap();
    assert_eq!(
        registry.register_node_factory(NodeFactory::MathAdd(MathAddNodeFactory)),
        Err(PluginError::DuplicateType("Add".to_string()))
    );
    assert_eq!(registry.len(), 2);
    assert_eq!(
        registry.list(),
        vec![HelloWorldNodeFactory.metadata(), MathAddNodeFactory.metadata()]
    );
}

#[test]
fn list_is_in_order_of_registration() {
    let mut registry = NodeRegistry::new();
    registry.register_node_factory(NodeFactory::MathAdd(MathAddNodeFactory)).unwrap();
    registry.register_node_factory(NodeFactory::HelloWorld(HelloWorldNodeFactory)).unwrap();
    let listed = registry.list();
    assert_eq!(listed.len(), 2);
    assert_eq!(listed[0].type_id, "Add");
    assert_eq!(listed[1].type_id, "HelloWorld");
}

#[test]
fn factory_key_is_the_type_id_of_its_metadata() {
    for factory in
        [NodeFactory::HelloWorld(HelloWorldNodeFactory), NodeFactory::MathAdd(MathAddNodeFactory)]
    {
        assert_eq!(factory.type_key(), factory.metadata().type_id);
    }
}

#[test]
fn end_to_end_add_node() {
    let mut registry = NodeRegistry::new();
    registry.register_node_factory(NodeFactory::MathAdd(MathAddNodeFactory)).unwrap();
    let factory = registry.lookup("Add").expect("registered");
    let origin = Pos2::new(scalar(0.0), scalar(0.0));
    let mut node = factory.create_node(origin, &mut IdGenerator::new());
    assert!(matches!(node, PluginNode::MathAdd(_)));
    assert_eq!(node.position(), origin);
    let mut inputs = PortValues::new();
    inputs.insert("A".to_string(), float(2.0));
    inputs.insert("B".to_string(), float(3.0));
    let outputs = node.process(&inputs, float_sum);
    assert_eq!(outputs.len(), 1);
    assert_eq!(outputs.entry(0), Some(("Result", &float(5.0))));
    assert_eq!(registry.len(), 1);
}

#[test]
fn two_nodes_from_one_factory_share_no_state() {
    let factory = NodeFactory::MathAdd(MathAddNodeFactory);
    let origin = Pos2::new(scalar(0.0), scalar(0.0));
    let mut ids = IdGenerator::new();
    let mut first = factory.create_node(origin, &mut ids);
    let second = factory.create_node(origin, &mut ids);
    assert_ne!(first.id(), second.id());
    first.set_parameter("a", float(4.0));
    first.set_position(Pos2::new(scalar(1.0), scalar(1.0)));
    assert_eq!(first.get_parameter("a"), Some(float(4.0)));
    assert_eq!(second.get_parameter("a"), Some(float(0.0)));
    assert_eq!(second.position(), origin);
}
