use example_plugin::ident::IdGenerator;
use example_plugin::layout::{Color32, Pos2};
use example_plugin::math_add::{MathAddNode, MathAddNodeFactory};
use example_plugin::metadata::NodeCategory;
use example_plugin::ports::PortValues;
use example_plugin::ui::{ParameterChange, UIAction, UIElement};
use example_plugin::value::{DataType, NodeData, PortDefinition, Scalar};

fn scalar(number: f32) -> Scalar {
    Scalar::from_bits(number.to_bits())
}

fn at(x: f32, y: f32) -> Pos2 {
    Pos2::new(scalar(x), scalar(y))
}

fn float(number: f32) -> NodeData {
    NodeData::Float(scalar(number))
}

fn text(value: &str) -> NodeData {
    NodeData::String(value.to_string())
}

fn node_at_origin() -> MathAddNode {
    MathAddNode::new(at(0.0, 0.0), &mut IdGenerator::starting_at(1))
}

fn float_sum(a: Scalar, b: Scalar) -> Scalar {
    scalar(f32::from_bits(a.to_bits()) + f32::from_bits(b.to_bits()))
}

fn float_sum_text(a: Scalar, b: Scalar) -> String {
    format!("{}", f32::from_bits(a.to_bits()) + f32::from_bits(b.to_bits()))
}

#[test]
fn math_add_metadata_describes_the_type() {
    let metadata = MathAddNodeFactory.metadata();
    assert_eq!(metadata.type_id, "Add");
    assert_eq!(metadata.display_name, "Add (Plugin)");
    assert_eq!(metadata.category, NodeCategory::Math);
    assert_eq!(metadata.description, "Adds two numbers together (from plugin)");
    assert_eq!(metadata.workspace_compatibility, vec!["3D".to_string(), "General".to_string()]);
    assert_eq!(metadata.color, Color32::from_rgb(100, 150, 255));
    assert_eq!(metadata.icon, "➕");
    assert_eq!(
        metadata.inputs,
        vec![
            PortDefinition::required("A", DataType::Float),
            PortDefinition::required("B", DataType::Float),
        ]
    );
    assert_eq!(metadata.outputs, vec![PortDefinition::required("Result", DataType::Float)]);
}

#[test]
fn math_add_metadata_is_the_same_at_every_call() {
    assert_eq!(MathAddNodeFactory.metadata(), MathAddNodeFactory.metadata());
}

#[test]
fn math_add_node_starts_at_zero() {
    let node = MathAddNodeFactory.create_node(at(5.0, -5.0), &mut IdGenerator::new());
    assert_eq!(node.position(), at(5.0, -5.0));
    assert_eq!(node.get_parameter("a"), Some(float(0.0)));
    assert_eq!(node.get_parameter("b"), Some(float(0.0)));
}

#[test]
fn math_add_id_has_prefix_and_hex_suffix() {
    let node = MathAddNode::new(at(0.0, 0.0), &mut IdGenerator::new());
    let id = node.id();
    let suffix = id.strip_prefix("math_add_").expect("prefix");
    assert!(!suffix.is_empty());
    assert!(suffix.chars().all(|c| c.is_ascii_digit() || ('a'..='f').contains(&c)));
    assert_eq!(node.id(), id);
}

#[test]
fn math_add_id_is_prefix_and_serial_in_hexadecimal() {
    let origin = at(0.0, 0.0);
    assert_eq!(MathAddNode::new(origin, &mut IdGenerator::starting_at(0)).id(), "math_add_0");
    assert_eq!(MathAddNode::new(origin, &mut IdGenerator::starting_at(4096)).id(), "math_add_1000");
    assert_eq!(
        MathAddNode::new(origin, &mut IdGenerator::starting_at(u128::MAX)).id(),
        "math_add_ffffffffffffffffffffffffffffffff"
    );
}

#[test]
fn math_add_nodes_of_one_generator_have_different_ids() {
    let mut ids = IdGenerator::starting_at(9);
    let first = MathAddNode::new(at(0.0, 0.0), &mut ids);
    let second = MathAddNode::new(at(0.0, 0.0), &mut ids);
    let third = MathAddNodeFactory.create_node(at(0.0, 0.0), &mut ids);
    assert_eq!(first.id(), "math_add_9");
    assert_eq!(second.id(), "math_add_a");
    assert_eq!(third.id(), "math_add_b");
    assert_eq!(ids.peek(), 12);
}

#[test]
fn math_add_nodes_made_at_once_have_different_ids() {
    let mut ids = IdGenerator::new();
    let mut seen = Vec::new();
    for _ in 0..1000 {
        let id = MathAddNode::new(at(0.0, 0.0), &mut ids).id();
        assert!(!seen.contains(&id));
        seen.push(id);
    }
}

#[test]
fn math_add_set_position_moves_only_the_node() {
    let mut node = MathAddNode::new(at(1.0, 2.0), &mut IdGenerator::starting_at(3));
    node.set_parameter("a", float(7.0));
    node.set_position(at(8.0, 9.0));
    assert_eq!(node.position(), at(8.0, 9.0));
    assert_eq!(node.id(), "math_add_3");
    assert_eq!(node.get_parameter("a"), Some(float(7.0)));
    assert_eq!(node.get_parameter("b"), Some(float(0.0)));
}

#[test]
fn math_add_set_then_get_returns_the_value() {
    let mut node = node_at_origin();
    node.set_parameter("a", float(2.5));
    assert_eq!(node.get_parameter("a"), Some(float(2.5)));
    assert_eq!(node.get_parameter("b"), Some(float(0.0)));
    node.set_parameter("b", float(-4.0));
    assert_eq!(node.get_parameter("a"), Some(float(2.5)));
    assert_eq!(node.get_parameter("b"), Some(float(-4.0)));
}

#[test]
fn math_add_values_outside_the_slider_range_are_kept() {
    let mut node = node_at_origin();
    node.set_parameter("a", float(1000.0));
    assert_eq!(node.get_parameter("a"), Some(float(1000.0)));
    node.set_parameter("b", float(f32::NEG_INFINITY));
    assert_eq!(node.get_parameter("b"), Some(float(f32::NEG_INFINITY)));
}

#[test]
fn math_add_unknown_parameter_is_ignored() {
    let mut node = node_at_origin();
    node.set_parameter("a", float(1.0));
    node.set_parameter("b", float(2.0));
    assert_eq!(node.get_parameter("c"), None);
    assert_eq!(node.get_parameter("A"), None);
    assert_eq!(node.get_parameter("ab"), None);
    node.set_parameter("c", float(9.0));
    node.set_parameter("A", float(9.0));
    assert_eq!(node.get_parameter("c"), None);
    assert_eq!(node.get_parameter("a"), Some(float(1.0)));
    assert_eq!(node.get_parameter("b"), Some(float(2.0)));
}

#[test]
fn math_add_wrong_kind_is_ignored() {
    let mut node = node_at_origin();
    node.set_parameter("a", float(1.0));
    node.set_parameter("a", text("2.0"));
    node.set_parameter("b", text("3.0"));
    assert_eq!(node.get_parameter("a"), Some(float(1.0)));
    assert_eq!(node.get_parameter("b"), Some(float(0.0)));
}

#[test]
fn math_add_action_sets_the_number_and_reports_it() {
    let mut node = node_at_origin();
    let first = node.handle_ui_action(UIAction::ParameterChanged {
        parameter: "a".to_string(),
        value: float(12.0),
    });
    assert_eq!(first, vec![ParameterChange { parameter: "a".to_string(), value: float(12.0) }]);
    let second = node.handle_ui_action(UIAction::ParameterChanged {
        parameter: "b".to_string(),
        value: float(-1.0),
    });
    assert_eq!(second, vec![ParameterChange { parameter: "b".to_string(), value: float(-1.0) }]);
    assert_eq!(node.get_parameter("a"), Some(float(12.0)));
    assert_eq!(node.get_parameter("b"), Some(float(-1.0)));
}

#[test]
fn math_add_action_is_equivalent_to_set_parameter() {
    for name in ["a", "b"] {
        let mut by_action = node_at_origin();
        let mut by_set = node_at_origin();
        by_action.handle_ui_action(UIAction::ParameterChanged {
            parameter: name.to_string(),
            value: float(6.5),
        });
        by_set.set_parameter(name, float(6.5));
        assert_eq!(by_action.get_parameter("a"), by_set.get_parameter("a"));
        assert_eq!(by_action.get_parameter("b"), by_set.get_parameter("b"));
        assert_eq!(
            by_action.get_parameter_ui(float_sum_text),
            by_set.get_parameter_ui(float_sum_text)
        );
    }
}

#[test]
fn math_add_action_on_unknown_parameter_or_wrong_kind_does_nothing() {
    let mut node = node_at_origin();
    node.set_parameter("a", float(1.0));
    let unknown = node.handle_ui_action(UIAction::ParameterChanged {
        parameter: "c".to_string(),
        value: float(5.0),
    });
    assert!(unknown.is_empty());
    let wrong_kind = node.handle_ui_action(UIAction::ParameterChanged {
        parameter: "a".to_string(),
        value: text("5.0"),
    });
    assert!(wrong_kind.is_empty());
    let button = node.handle_ui_action(UIAction::ButtonClicked { action: "a".to_string() });
    assert!(button.is_empty());
    assert_eq!(node.get_parameter("a"), Some(float(1.0)));
    assert_eq!(node.get_parameter("b"), Some(float(0.0)));
}

#[test]
fn math_add_ui_shows_both_numbers_and_their_sum() {
    let mut node = node_at_origin();
    node.set_parameter("a", float(2.0));
    node.set_parameter("b", float(3.5));
    let ui = node.get_parameter_ui(float_sum_text);
    assert_eq!(
        ui.elements,
        vec![
            UIElement::Heading("Math Add Node (Plugin)".to_string()),
            UIElement::Separator,
            UIElement::Slider {
                label: "A".to_string(),
                value: scalar(2.0),
                min: scalar(-100.0),
                max: scalar(100.0),
                parameter_name: "a".to_string(),
            },
            UIElement::Slider {
                label: "B".to_string(),
                value: scalar(3.5),
                min: scalar(-100.0),
                max: scalar(100.0),
                parameter_name: "b".to_string(),
            },
            UIElement::Label("Result: 5.5".to_string()),
        ]
    );
}

#[test]
fn math_add_ui_of_a_fresh_node() {
    let node = node_at_origin();
    let ui = node.get_parameter_ui(float_sum_text);
    assert_eq!(ui.elements.len(), 5);
    assert_eq!(ui.elements[4], UIElement::Label("Result: 0".to_string()));
}

#[test]
fn math_add_process_without_inputs_uses_the_parameters() {
    let mut node = node_at_origin();
    node.set_parameter("a", float(2.0));
    node.set_parameter("b", float(3.0));
    let outputs = node.process(&PortValues::new(), float_sum);
    assert_eq!(outputs.len(), 1);
    assert_eq!(outputs.get("Result"), Some(&float(5.0)));
    assert_eq!(node.get_parameter("a"), Some(float(2.0)));
    assert_eq!(node.get_parameter("b"), Some(float(3.0)));
}

#[test]
fn math_add_input_overrides_the_stored_parameter() {
    let mut node = node_at_origin();
    node.set_parameter("a", float(2.0));
    node.set_parameter("b", float(3.0));
    let mut inputs = PortValues::new();
    inputs.insert("A".to_string(), float(10.0));
    let outputs = node.process(&inputs, float_sum);
    assert_eq!(outputs.get("Result"), Some(&float(13.0)));
    assert_eq!(node.get_parameter("a"), Some(float(10.0)));
    assert_eq!(node.get_parameter("b"), Some(float(3.0)));
    let later = node.process(&PortValues::new(), float_sum);
    assert_eq!(later.get("Result"), Some(&float(13.0)));
}

#[test]
fn math_add_process_takes_both_inputs() {
    let mut node = node_at_origin();
    let mut inputs = PortValues::new();
    inputs.insert("A".to_string(), float(2.0));
    inputs.insert("B".to_string(), float(3.0));
    let outputs = node.process(&inputs, float_sum);
    assert_eq!(outputs.len(), 1);
    assert_eq!(outputs.get("Result"), Some(&float(5.0)));
    assert_eq!(node.get_parameter("a"), Some(float(2.0)));
    assert_eq!(node.get_parameter("b"), Some(float(3.0)));
}

#[test]
fn math_add_process_ignores_inputs_of_another_kind_or_name() {
    let mut node = node_at_origin();
    node.set_parameter("a", float(1.0));
    node.set_parameter("b", float(1.0));
    let mut inputs = PortValues::new();
    inputs.insert("A".to_string(), text("10.0"));
    inputs.insert("a".to_string(), float(10.0));
    inputs.insert("Result".to_string(), float(10.0));
    let outputs = node.process(&inputs, float_sum);
    assert_eq!(outputs.get("Result"), Some(&float(2.0)));
    assert_eq!(node.get_parameter("a"), Some(float(1.0)));
    assert_eq!(node.get_parameter("b"), Some(float(1.0)));
}

#[test]
fn math_add_process_hands_the_adder_the_numbers_it_holds() {
    let mut node = node_at_origin();
    node.set_parameter("b", float(4.0));
    let mut inputs = PortValues::new();
    inputs.insert("A".to_string(), float(9.0));
    let outputs = node.process(&inputs, |a: Scalar, b: Scalar| {
        assert_eq!(a, scalar(9.0));
        assert_eq!(b, scalar(4.0));
        scalar(-1.0)
    });
    assert_eq!(outputs.get("Result"), Some(&float(-1.0)));
}
