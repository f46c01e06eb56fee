//! Nodes and factories of either type, handled alike.

use crate::hello_world::{
    hello_world_metadata, HelloWorldNode, HelloWorldNodeFactory, HelloWorldView,
};
use crate::ident::{
    lemma_draw_moves_on, lemma_draws_differ, lemma_next_is_fresh, serial_count, IdGenerator,
    IdGeneratorView,
};
use crate::layout::Pos2;
use crate::math_add::{
    float_input, lemma_input_names_differ, math_add_metadata, MathAddNode, MathAddNodeFactory,
    MathAddView,
};
use crate::metadata::{MetadataView, NodeMetadata};
use crate::ports::PortValues;
use crate::ui::{
    ParameterChange, ParameterChangeView, ParameterUI, UIAction, UIActionView, UIElementView,
};
use crate::value::{NodeData, PortView, Scalar, Value};
use vstd::prelude::*;

verus! {

/// What a node holds.
pub enum NodeView {
    HelloWorld(HelloWorldView),
    MathAdd(MathAddView),
}

impl NodeView {
    /// The identifier of the node.
    pub open spec fn id(self) -> Seq<char> {
        match self {
            NodeView::HelloWorld(node) => node.id,
            NodeView::MathAdd(node) => node.id,
        }
    }

    /// Where the node sits.
    pub open spec fn position(self) -> Pos2 {
        match self {
            NodeView::HelloWorld(node) => node.position,
            NodeView::MathAdd(node) => node.position,
        }
    }

    /// The node after it was moved.
    pub open spec fn moved_to(self, position: Pos2) -> NodeView {
        match self {
            NodeView::HelloWorld(node) => NodeView::HelloWorld(
                HelloWorldView { position, ..node },
            ),
            NodeView::MathAdd(node) => NodeView::MathAdd(MathAddView { position, ..node }),
        }
    }

    /// The description of the node's type.
    pub open spec fn described(self) -> MetadataView {
        match self {
            NodeView::HelloWorld(_) => hello_world_metadata(),
            NodeView::MathAdd(_) => math_add_metadata(),
        }
    }

    /// Whether the node has a parameter of this name.
    pub open spec fn declares(self, name: Seq<char>) -> bool {
        match self {
            NodeView::HelloWorld(_) => HelloWorldView::declares(name),
            NodeView::MathAdd(_) => MathAddView::declares(name),
        }
    }

    /// Whether the node takes this value for this parameter.
    pub open spec fn accepts(self, name: Seq<char>, value: Value) -> bool {
        match self {
            NodeView::HelloWorld(_) => HelloWorldView::accepts(name, value),
            NodeView::MathAdd(_) => MathAddView::accepts(name, value),
        }
    }

    /// The value of a parameter; nothing under an unknown name.
    pub open spec fn parameter(self, name: Seq<char>) -> Option<Value> {
        match self {
            NodeView::HelloWorld(node) => node.parameter(name),
            NodeView::MathAdd(node) => node.parameter(name),
        }
    }

    /// The node after a parameter was set.
    pub open spec fn after_set(self, name: Seq<char>, value: Value) -> NodeView {
        match self {
            NodeView::HelloWorld(node) => NodeView::HelloWorld(node.after_set(name, value)),
            NodeView::MathAdd(node) => NodeView::MathAdd(node.after_set(name, value)),
        }
    }

    /// The node after an event from the editor.
    pub open spec fn after_action(self, action: UIActionView) -> NodeView {
        match self {
            NodeView::HelloWorld(node) => NodeView::HelloWorld(node.after_action(action)),
            NodeView::MathAdd(node) => NodeView::MathAdd(node.after_action(action)),
        }
    }

    /// What the node answers to an event.
    pub open spec fn changes(self, action: UIActionView) -> Seq<ParameterChangeView> {
        match self {
            NodeView::HelloWorld(_) => HelloWorldView::changes(action),
            NodeView::MathAdd(_) => MathAddView::changes(action),
        }
    }

    /// The node after it took from the inputs what mirrors its parameters.
    pub open spec fn after_inputs(self, inputs: Map<Seq<char>, Value>) -> NodeView {
        match self {
            NodeView::HelloWorld(_) => self,
            NodeView::MathAdd(node) => NodeView::MathAdd(node.after_inputs(inputs)),
        }
    }

    /// The editing surface of the node, where `sum_text` is the text that an
    /// adding node shows for the sum of its two numbers.
    pub open spec fn ui(self, sum_text: Seq<char>) -> Seq<UIElementView> {
        match self {
            NodeView::HelloWorld(node) => node.ui(),
            NodeView::MathAdd(node) => node.ui(sum_text),
        }
    }

    /// What the node gives out, where `sum` is the sum that an adding node
    /// gives out for its two numbers.
    pub open spec fn outputs(self, sum: Scalar) -> Map<Seq<char>, Value> {
        match self {
            NodeView::HelloWorld(node) => node.outputs(),
            NodeView::MathAdd(_) => MathAddView::outputs(sum),
        }
    }
}

/// Setting a parameter to a value that the node takes makes it the value of
/// that parameter. Every other parameter, the identifier and the position
/// stay as they were.
pub proof fn lemma_set_then_get(node: NodeView, name: Seq<char>, value: Value)
    requires
        node.accepts(name, value),
    ensures
        node.after_set(name, value).parameter(name) == Some(value),
        forall|other: Seq<char>|
            other != name ==> #[trigger] node.after_set(name, value).parameter(other)
                == node.parameter(other),
        node.after_set(name, value).id() == node.id(),
        node.after_set(name, value).position() == node.position(),
{
    lemma_input_names_differ();
}

/// A name that the node does not declare has no value, and no value is taken
/// for it.
pub proof fn lemma_unknown_parameter(node: NodeView, name: Seq<char>, value: Value)
    requires
        !node.declares(name),
    ensures
        node.parameter(name) is None,
        !node.accepts(name, value),
{
}

/// Setting a parameter that the node does not take, for its name or for the
/// kind of the value, leaves the node as it was.
pub proof fn lemma_refused_set_changes_nothing(node: NodeView, name: Seq<char>, value: Value)
    requires
        !node.accepts(name, value),
    ensures
        node.after_set(name, value) == node,
{
}

/// An event that reports a changed parameter does to the node what setting
/// the parameter does. Where the node takes the value, it answers with that
/// one change; where it does not, it answers with nothing and stays as it
/// was.
pub proof fn lemma_action_is_set(node: NodeView, parameter: Seq<char>, value: Value)
    ensures
        node.after_action(UIActionView::ParameterChanged { parameter, value }) == node.after_set(
            parameter,
            value,
        ),
        node.accepts(parameter, value) ==> node.changes(
            UIActionView::ParameterChanged { parameter, value },
        ) == seq![ParameterChangeView { parameter, value }],
        !node.accepts(parameter, value) ==> node.changes(
            UIActionView::ParameterChanged { parameter, value },
        ) == Seq::<ParameterChangeView>::empty() && node.after_action(
            UIActionView::ParameterChanged { parameter, value },
        ) == node,
{
    lemma_input_names_differ();
}

/// Any other event leaves the node as it was and is answered with nothing.
pub proof fn lemma_other_action_changes_nothing(node: NodeView, action: UIActionView)
    requires
        action is ButtonClicked,
    ensures
        node.after_action(action) == node,
        node.changes(action) == Seq::<ParameterChangeView>::empty(),
{
}

/// A step without inputs leaves the node as it was, so what it gives out
/// comes from the parameters it held.
pub proof fn lemma_no_inputs_change_nothing(node: NodeView)
    ensures
        node.after_inputs(Map::empty()) == node,
{
}

/// A number on an input port of an adding node becomes the value of the
/// parameter that the port mirrors; a port that carries no number leaves its
/// parameter as it was.
pub proof fn lemma_inputs_override(node: MathAddView, inputs: Map<Seq<char>, Value>)
    ensures
        node.after_inputs(inputs).parameter("a"@) == Some(
            Value::Float(
                match float_input(inputs, "A"@) {
                    Some(number) => number,
                    None => node.a,
                },
            ),
        ),
        node.after_inputs(inputs).parameter("b"@) == Some(
            Value::Float(
                match float_input(inputs, "B"@) {
                    Some(number) => number,
                    None => node.b,
                },
            ),
        ),
{
    lemma_input_names_differ();
}

/// Two nodes made by different factories, or from different serial numbers,
/// have different identifiers.
pub proof fn lemma_fresh_ids_differ(
    first: NodeFactory,
    first_serial: u128,
    second: NodeFactory,
    second_serial: u128,
)
    requires
        first != second || first_serial != second_serial,
    ensures
        first.identifier(first_serial) != second.identifier(second_serial),
{
    reveal_strlit("hello_world_");
    reveal_strlit("math_add_");
    let a = first.identifier(first_serial);
    let b = second.identifier(second_serial);
    match (first, second) {
        (NodeFactory::HelloWorld(_), NodeFactory::HelloWorld(_)) => {
            crate::hello_world::lemma_identifiers_differ(first_serial, second_serial);
        },
        (NodeFactory::MathAdd(_), NodeFactory::MathAdd(_)) => {
            crate::math_add::lemma_identifiers_differ(first_serial, second_serial);
        },
        (NodeFactory::HelloWorld(_), NodeFactory::MathAdd(_)) => {
            assert(a[0] == 'h' && b[0] == 'm');
        },
        (NodeFactory::MathAdd(_), NodeFactory::HelloWorld(_)) => {
            assert(a[0] == 'm' && b[0] == 'h');
        },
    }
}

/// Two nodes that took their serial numbers from different draws of one
/// generator, fewer draws apart than there are serial numbers, have
/// different identifiers, whichever factories made them and wherever they
/// sit.
pub proof fn lemma_nodes_of_one_generator_differ(
    ids: IdGeneratorView,
    first: NodeFactory,
    first_position: Pos2,
    earlier: int,
    second: NodeFactory,
    second_position: Pos2,
    later: int,
)
    requires
        earlier < later,
        later - earlier < serial_count(),
    ensures
        first.fresh(first_position, ids.serial(earlier)).id() != second.fresh(
            second_position,
            ids.serial(later),
        ).id(),
{
    lemma_draws_differ(ids, earlier, later);
    lemma_fresh_ids_differ(first, ids.serial(earlier), second, ids.serial(later));
}

/// A node keeps its identifier through every change of a parameter, every
/// event, every step of its work and every move.
pub proof fn lemma_id_is_stable(
    node: NodeView,
    name: Seq<char>,
    value: Value,
    action: UIActionView,
    inputs: Map<Seq<char>, Value>,
    position: Pos2,
)
    ensures
        node.after_set(name, value).id() == node.id(),
        node.after_action(action).id() == node.id(),
        node.after_inputs(inputs).id() == node.id(),
        node.moved_to(position).id() == node.id(),
{
}

/// Every element of the editing surface that edits a parameter shows the
/// value that the parameter has.
pub proof fn lemma_ui_shows_parameters(node: NodeView, sum_text: Seq<char>, i: int)
    requires
        0 <= i < node.ui(sum_text).len(),
    ensures
        match node.ui(sum_text)[i].binding() {
            Some((name, value)) => node.parameter(name) == Some(value),
            None => true,
        },
{
    lemma_input_names_differ();
}

/// Every port that a node gives a value on is an output port of its type, and
/// the value is of the kind that the port declares.
pub proof fn lemma_outputs_are_declared(node: NodeView, sum: Scalar, port: Seq<char>)
    requires
        node.outputs(sum).contains_key(port),
    ensures
        node.described().declares_output(port),
        exists|i: int|
            0 <= i < node.described().outputs.len() && (#[trigger] node.described().outputs[i])
                == (PortView {
                name: port,
                data_type: node.outputs(sum)[port].data_type(),
                required: true,
            }),
{
    assert(node.described().outputs[0].name == port);
}

/// A node of either type.
#[derive(Debug)]
pub enum PluginNode {
    HelloWorld(HelloWorldNode),
    MathAdd(MathAddNode),
}

impl View for PluginNode {
    type V = NodeView;

    open spec fn view(&self) -> NodeView {
        match self {
            PluginNode::HelloWorld(node) => NodeView::HelloWorld(node@),
            PluginNode::MathAdd(node) => NodeView::MathAdd(node@),
        }
    }
}

impl PluginNode {
    /// The identifier of this node. It never changes.
    pub fn id(&self) -> (id: String)
        ensures
            id@ == self@.id(),
    {
        match self {
            PluginNode::HelloWorld(node) => node.id(),
            PluginNode::MathAdd(node) => node.id(),
        }
    }

    /// Where the node sits.
    pub fn position(&self) -> (position: Pos2)
        ensures
            position == self@.position(),
    {
        match self {
            PluginNode::HelloWorld(node) => node.position(),
            PluginNode::MathAdd(node) => node.position(),
        }
    }

    /// Moves the node.
    pub fn set_position(&mut self, position: Pos2)
        ensures
            final(self)@ == old(self)@.moved_to(position),
    {
        match self {
            PluginNode::HelloWorld(node) => node.set_position(position),
            PluginNode::MathAdd(node) => node.set_position(position),
        }
    }

    /// The editing surface, built from the present state. An adding node
    /// calls `sum_text` once, on its two numbers, for the text of their sum.
    pub fn get_parameter_ui<F: Fn(Scalar, Scalar) -> String>(&self, sum_text: F) -> (ui:
        ParameterUI)
        requires
            self@ matches NodeView::MathAdd(node) ==> sum_text.requires((node.a, node.b)),
        ensures
            match self@ {
                NodeView::HelloWorld(node) => ui@ == node.ui(),
                NodeView::MathAdd(node) => exists|text: String|
                    sum_text.ensures((node.a, node.b), text) && ui@ == node.ui(text@),
            },
    {
        match self {
            PluginNode::HelloWorld(node) => node.get_parameter_ui(),
            PluginNode::MathAdd(node) => node.get_parameter_ui(sum_text),
        }
    }

    /// Applies an event from the editor and reports what took effect.
    pub fn handle_ui_action(&mut self, action: UIAction) -> (changes: Vec<ParameterChange>)
        ensures
            final(self)@ == old(self)@.after_action(action@),
            changes.deep_view() == old(self)@.changes(action@),
    {
        match self {
            PluginNode::HelloWorld(node) => node.handle_ui_action(action),
            PluginNode::MathAdd(node) => node.handle_ui_action(action),
        }
    }

    /// The value of a parameter; nothing under an unknown name.
    pub fn get_parameter(&self, name: &str) -> (value: Option<NodeData>)
        ensures
            value.deep_view() == self@.parameter(name@),
    {
        match self {
            PluginNode::HelloWorld(node) => node.get_parameter(name),
            PluginNode::MathAdd(node) => node.get_parameter(name),
        }
    }

    /// Sets a parameter. An unknown name, or a value of the wrong kind,
    /// changes nothing.
    pub fn set_parameter(&mut self, name: &str, value: NodeData)
        ensures
            final(self)@ == old(self)@.after_set(name@, value@),
    {
        match self {
            PluginNode::HelloWorld(node) => node.set_parameter(name, value),
            PluginNode::MathAdd(node) => node.set_parameter(name, value),
        }
    }

    /// One step of the node's work: it takes from the inputs what mirrors its
    /// parameters, and gives out what its state then yields. An adding node
    /// calls `adder` once, on the two numbers it then holds.
    pub fn process<F: Fn(Scalar, Scalar) -> Scalar>(&mut self, inputs: &PortValues, adder: F) -> (outputs:
        PortValues)
        requires
            old(self)@.after_inputs(inputs@) matches NodeView::MathAdd(node) ==> adder.requires(
                (node.a, node.b),
            ),
        ensures
            final(self)@ == old(self)@.after_inputs(inputs@),
            match final(self)@ {
                NodeView::HelloWorld(node) => outputs@ == node.outputs(),
                NodeView::MathAdd(node) => {
                    &&& outputs@.contains_key("Result"@)
                    &&& outputs@["Result"@] matches Value::Float(sum)
                    &&& adder.ensures((node.a, node.b), sum)
                    &&& outputs@ == MathAddView::outputs(sum)
                },
            },
    {
        match self {
            PluginNode::HelloWorld(node) => node.process(inputs),
            PluginNode::MathAdd(node) => node.process(inputs, adder),
        }
    }
}

/// A factory of either node type.
#[derive(Clone, Copy, Debug, PartialEq, Eq, Structural)]
pub enum NodeFactory {
    HelloWorld(HelloWorldNodeFactory),
    MathAdd(MathAddNodeFactory),
}

impl NodeFactory {
    /// The description of the node type.
    pub open spec fn described(self) -> MetadataView {
        match self {
            NodeFactory::HelloWorld(_) => hello_world_metadata(),
            NodeFactory::MathAdd(_) => math_add_metadata(),
        }
    }

    /// The identifier of the node type.
    pub open spec fn type_id(self) -> Seq<char> {
        self.described().type_id
    }

    /// The identifier of the node that the factory makes from a serial
    /// number.
    pub open spec fn identifier(self, serial: u128) -> Seq<char> {
        match self {
            NodeFactory::HelloWorld(_) => HelloWorldView::identifier(serial),
            NodeFactory::MathAdd(_) => MathAddView::identifier(serial),
        }
    }

    /// The node that the factory makes at a position from a serial number.
    pub open spec fn fresh(self, position: Pos2, serial: u128) -> NodeView {
        match self {
            NodeFactory::HelloWorld(_) => NodeView::HelloWorld(
                HelloWorldView::fresh(position, serial),
            ),
            NodeFactory::MathAdd(_) => NodeView::MathAdd(MathAddView::fresh(position, serial)),
        }
    }

    /// The description of the node type; the same at every call.
    pub fn metadata(&self) -> (metadata: NodeMetadata)
        ensures
            metadata@ == self.described(),
            metadata@.well_formed(),
    {
        match self {
            NodeFactory::HelloWorld(factory) => factory.metadata(),
            NodeFactory::MathAdd(factory) => factory.metadata(),
        }
    }

    /// The identifier of the node type, without building its description.
    pub fn type_key(&self) -> (key: &'static str)
        ensures
            key@ == self.type_id(),
    {
        match self {
            NodeFactory::HelloWorld(_) => "HelloWorld",
            NodeFactory::MathAdd(_) => "Add",
        }
    }

    /// A new node at the given position, with the parameters of a fresh
    /// node. Its identifier comes from the generator's next serial number,
    /// so it differs from that of every node that drew from the generator
    /// before, unless the generator has been through all the serial numbers
    /// there are.
    pub fn create_node(&self, position: Pos2, ids: &mut IdGenerator) -> (node: PluginNode)
        ensures
            node@ == self.fresh(position, old(ids)@.next),
            final(ids)@ == old(ids)@.after_draw(),
            node@.id() == self.identifier(old(ids)@.next),
            final(ids)@.issued() == old(ids)@.issued().insert(old(ids)@.next),
            forall|other: NodeFactory| #[trigger]
                other.identifier(final(ids)@.next) != node@.id(),
            !old(ids)@.spent() ==> forall|other: NodeFactory, serial: u128|
                old(ids)@.issued().contains(serial) ==> #[trigger] other.identifier(serial)
                    != node@.id(),
    {
        proof {
            let before = ids@;
            lemma_draw_moves_on(before);
            assert forall|other: NodeFactory| #[trigger]
                other.identifier(before.after_draw().next) != self.identifier(
                    before.next,
                ) by {
                lemma_fresh_ids_differ(other, before.after_draw().next, *self, before.next);
            }
            if !before.spent() {
                lemma_next_is_fresh(before);
                assert forall|other: NodeFactory, serial: u128|
                    before.issued().contains(serial) implies #[trigger] other.identifier(serial)
                    != self.identifier(before.next) by {
                    lemma_fresh_ids_differ(other, serial, *self, before.next);
                }
            }
        }
        match self {
            NodeFactory::HelloWorld(factory) => PluginNode::HelloWorld(
                factory.create_node(position, ids),
            ),
            NodeFactory::MathAdd(factory) => PluginNode::MathAdd(
                factory.create_node(position, ids),
            ),
        }
    }
}

} // verus!
