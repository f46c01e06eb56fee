use example_plugin::hello_world::{HelloWorldNode, HelloWorldNodeFactory};
use example_plugin::ident::IdGenerator;
use example_plugin::layout::Pos2;
use example_plugin::math_add::{MathAddNode, MathAddNodeFactory};
use example_plugin::node::{NodeFactory, PluginNode};
use example_plugin::ports::PortValues;
use example_plugin::ui::{ParameterChange, UIAction, UIElement};
use example_plugin::value::{NodeData, Scalar};

fn scalar(number: f32) -> Scalar {
    Scalar::from_bits(number.to_bits())
}

fn at(x: f32, y: f32) -> Pos2 {
    Pos2::new(scalar(x), scalar(y))
}

fn float(number: f32) -> NodeData {
    NodeData::Float(scalar(number))
}

fn text(value: &str) -> NodeData {
    NodeData::String(value.to_string())
}

fn float_sum(a: Scalar, b: Scalar) -> Scalar {
    scalar(f32::from_bits(a.to_bits()) + f32::from_bits(b.to_bits()))
}

fn float_sum_text(a: Scalar, b: Scalar) -> String {
    format!("{}", f32::from_bits(a.to_bits()) + f32::from_bits(b.to_bits()))
}

fn both() -> Vec<PluginNode> {
    vec![
        PluginNode::HelloWorld(HelloWorldNode::new(at(1.0, 1.0), &mut IdGenerator::starting_at(10))),
        PluginNode::MathAdd(MathAddNode::new(at(2.0, 2.0), &mut IdGenerator::starting_at(11))),
    ]
}

#[test]
fn either_node_reports_id_and_position() {
    let nodes = both();
    assert_eq!(nodes[0].id(), "hello_world_a");
    assert_eq!(nodes[0].position(), at(1.0, 1.0));
    assert_eq!(nodes[1].id(), "math_add_b");
    assert_eq!(nodes[1].position(), at(2.0, 2.0));
}

#[test]
fn either_node_can_be_moved() {
    for mut node in both() {
        let id = node.id();
        node.set_position(at(-7.0, 7.0));
        assert_eq!(node.position(), at(-7.0, 7.0));
        assert_eq!(node.id(), id);
    }
}

#[test]
fn either_node_ignores_names_it_does_not_declare() {
    for mut node in both() {
        let message = node.get_parameter("message");
        let a = node.get_parameter("a");
        assert_eq!(node.get_parameter("unknown"), None);
        node.set_parameter("unknown", text("x"));
        node.set_parameter("unknown", float(1.0));
        let changes = node.handle_ui_action(UIAction::ParameterChanged {
            parameter: "unknown".to_string(),
            value: float(1.0),
        });
        assert!(changes.is_empty());
        assert_eq!(node.get_parameter("unknown"), None);
        assert_eq!(node.get_parameter("message"), message);
        assert_eq!(node.get_parameter("a"), a);
    }
}

#[test]
fn either_node_sets_what_it_declares() {
    let mut nodes = both();
    nodes[0].set_parameter("message", text("dispatch"));
    assert_eq!(nodes[0].get_parameter("message"), Some(text("dispatch")));
    assert_eq!(nodes[0].get_parameter("a"), None);
    nodes[1].set_parameter("a", float(8.0));
    assert_eq!(nodes[1].get_parameter("a"), Some(float(8.0)));
    assert_eq!(nodes[1].get_parameter("message"), None);
}

#[test]
fn either_node_answers_an_action_with_the_change() {
    let mut nodes = both();
    let first = nodes[0].handle_ui_action(UIAction::ParameterChanged {
        parameter: "message".to_string(),
        value: text("clicked"),
    });
    assert_eq!(
        first,
        vec![ParameterChange { parameter: "message".to_string(), value: text("clicked") }]
    );
    let second = nodes[1].handle_ui_action(UIAction::ParameterChanged {
        parameter: "b".to_string(),
        value: float(0.5),
    });
    assert_eq!(second, vec![ParameterChange { parameter: "b".to_string(), value: float(0.5) }]);
}

#[test]
fn either_node_builds_its_own_ui() {
    let nodes = both();
    let hello = nodes[0].get_parameter_ui(float_sum_text);
    assert_eq!(hello.elements.len(), 3);
    assert_eq!(hello.elements[0], UIElement::Heading("Hello World Node".to_string()));
    let adding = nodes[1].get_parameter_ui(float_sum_text);
    assert_eq!(adding.elements.len(), 5);
    assert_eq!(adding.elements[0], UIElement::Heading("Math Add Node (Plugin)".to_string()));
    assert_eq!(adding.elements[4], UIElement::Label("Result: 0".to_string()));
}

#[test]
fn either_node_processes() {
    let mut nodes = both();
    let mut inputs = PortValues::new();
    inputs.insert("A".to_string(), float(1.5));
    inputs.insert("B".to_string(), float(2.25));
    let hello = nodes[0].process(&inputs, float_sum);
    assert_eq!(hello.len(), 1);
    assert_eq!(hello.get("Message"), Some(&text("Hello from plugin!")));
    let adding = nodes[1].process(&inputs, float_sum);
    assert_eq!(adding.len(), 1);
    assert_eq!(adding.get("Result"), Some(&float(3.75)));
    assert_eq!(nodes[1].get_parameter("a"), Some(float(1.5)));
    assert_eq!(nodes[1].get_parameter("b"), Some(float(2.25)));
}

#[test]
fn factories_make_nodes_of_their_own_type() {
    let mut ids = IdGenerator::starting_at(0x2a);
    let hello = NodeFactory::HelloWorld(HelloWorldNodeFactory).create_node(at(0.0, 0.0), &mut ids);
    assert!(matches!(hello, PluginNode::HelloWorld(_)));
    assert_eq!(hello.id(), "hello_world_2a");
    let adding = NodeFactory::MathAdd(MathAddNodeFactory).create_node(at(0.0, 0.0), &mut ids);
    assert!(matches!(adding, PluginNode::MathAdd(_)));
    assert_eq!(adding.id(), "math_add_2b");
}

#[test]
fn nodes_of_one_generator_have_different_ids() {
    let factories =
        [NodeFactory::HelloWorld(HelloWorldNodeFactory), NodeFactory::MathAdd(MathAddNodeFactory)];
    let mut ids = IdGenerator::new();
    let mut seen: Vec<String> = Vec::new();
    for round in 0..200 {
        let node = factories[round % 2].create_node(at(0.0, 0.0), &mut ids);
        assert!(!seen.contains(&node.id()));
        seen.push(node.id());
    }
}

#[test]
fn nodes_of_different_types_differ_even_with_one_serial() {
    let hello = NodeFactory::HelloWorld(HelloWorldNodeFactory)
        .create_node(at(0.0, 0.0), &mut IdGenerator::starting_at(7));
    let adding = NodeFactory::MathAdd(MathAddNodeFactory)
        .create_node(at(0.0, 0.0), &mut IdGenerator::starting_at(7));
    assert_ne!(hello.id(), adding.id());
}

#[test]
fn a_node_keeps_its_id() {
    let mut nodes = both();
    for node in nodes.iter_mut() {
        let id = node.id();
        node.set_position(at(9.0, 9.0));
        node.set_parameter("a", float(1.0));
        node.set_parameter("message", text("changed"));
        node.handle_ui_action(UIAction::ParameterChanged {
            parameter: "b".to_string(),
            value: float(2.0),
        });
        node.process(&PortValues::new(), float_sum);
        assert_eq!(node.id(), id);
    }
}

#[test]
fn factory_metadata_is_that_of_the_wrapped_factory() {
    assert_eq!(
        NodeFactory::HelloWorld(HelloWorldNodeFactory).metadata(),
        HelloWorldNodeFactory.metadata()
    );
    assert_eq!(NodeFactory::MathAdd(MathAddNodeFactory).metadata(), MathAddNodeFactory.metadata());
}

#[test]
fn output_ports_are_declared_with_their_kind() {
    let mut nodes = both();
    let declared = [HelloWorldNodeFactory.metadata(), MathAddNodeFactory.metadata()];
    for (node, metadata) in nodes.iter_mut().zip(declared.iter()) {
        let outputs = node.process(&PortValues::new(), float_sum);
        let mut i = 0;
        while let Some((name, value)) = outputs.entry(i) {
            let port = metadata.outputs.iter().find(|port| port.name == name).expect("declared");
            assert_eq!(port.data_type, value.data_type());
            i += 1;
        }
        assert_eq!(i, outputs.len());
    }
}
