//! The greeting node: it holds a message and gives it out.

use crate::ident::{
    lemma_draw_moves_on, lemma_next_is_fresh, uuid, IdGenerator, IdGeneratorView,
};
use crate::layout::{Color32, Pos2};
use crate::metadata::{MetadataView, NodeCategory, NodeMetadata};
use crate::text::{hex_digits, lemma_hex_digits_differ, same_text};
use crate::ui::{
    ParameterChange, ParameterChangeView, ParameterUI, UIAction, UIActionView, UIElement,
    UIElementView,
};
use crate::ports::PortValues;
use crate::value::{DataType, NodeData, PortDefinition, PortView, Value};
use vstd::prelude::*;
use vstd::string::StringExecFns;

verus! {

/// The description of the greeting node type.
pub open spec fn hello_world_metadata() -> MetadataView {
    MetadataView {
        type_id: "HelloWorld"@,
        display_name: "Hello World"@,
        category: NodeCategory::Utility,
        description: "A simple node that displays a greeting"@,
        workspace_compatibility: seq!["3D"@, "General"@],
        color: Color32 { r: 100, g: 200, b: 100, a: 255 },
        icon: "👋"@,
        inputs: seq![],
        outputs: seq![PortView { name: "Message"@, data_type: DataType::String, required: true }],
    }
}

/// The factory of greeting nodes.
#[derive(Clone, Copy, Debug, PartialEq, Eq, Structural)]
pub struct HelloWorldNodeFactory;

impl HelloWorldNodeFactory {
    /// The description of the node type; the same at every call.
    pub fn metadata(&self) -> (metadata: NodeMetadata)
        ensures
            metadata@ == hello_world_metadata(),
            metadata@.well_formed(),
    {
        let mut workspaces: Vec<String> = Vec::new();
        workspaces.push("3D".to_owned());
        workspaces.push("General".to_owned());
        let inputs: Vec<PortDefinition> = Vec::new();
        let mut outputs: Vec<PortDefinition> = Vec::new();
        outputs.push(PortDefinition::required("Message", DataType::String));
        let metadata = NodeMetadata {
            type_id: "HelloWorld".to_owned(),
            display_name: "Hello World".to_owned(),
            category: NodeCategory::Utility,
            description: "A simple node that displays a greeting".to_owned(),
            workspace_compatibility: workspaces,
            color: Color32::from_rgb(100, 200, 100),
            icon: "👋".to_owned(),
            inputs,
            outputs,
        };
        proof {
            assert(metadata@.workspace_compatibility =~= hello_world_metadata().workspace_compatibility);
            assert(metadata@.inputs =~= hello_world_metadata().inputs);
            assert(metadata@.outputs =~= hello_world_metadata().outputs);
        }
        metadata
    }

    /// A new greeting node at the given position, with the default message.
    /// Its identifier comes from the generator's next serial number.
    pub fn create_node(&self, position: Pos2, ids: &mut IdGenerator) -> (node: HelloWorldNode)
        ensures
            node@ == HelloWorldView::fresh(position, old(ids)@.next),
            final(ids)@ == old(ids)@.after_draw(),
            final(ids)@.issued() == old(ids)@.issued().insert(old(ids)@.next),
            HelloWorldView::identifier(final(ids)@.next) != node@.id,
            !old(ids)@.spent() ==> forall|serial: u128|
                old(ids)@.issued().contains(serial) ==> #[trigger] HelloWorldView::identifier(serial)
                    != node@.id,
    {
        HelloWorldNode::new(position, ids)
    }
}

/// What a greeting node holds.
pub struct HelloWorldView {
    pub id: Seq<char>,
    pub position: Pos2,
    pub message: Seq<char>,
}

impl HelloWorldView {
    /// The identifier of the node made from a serial number.
    pub open spec fn identifier(serial: u128) -> Seq<char> {
        "hello_world_"@ + hex_digits(serial as nat)
    }

    /// The node that a factory makes at a position from a serial number.
    pub open spec fn fresh(position: Pos2, serial: u128) -> HelloWorldView {
        HelloWorldView {
            id: Self::identifier(serial),
            position,
            message: "Hello from plugin!"@,
        }
    }

    /// Whether the node has a parameter of this name.
    pub open spec fn declares(name: Seq<char>) -> bool {
        name == "message"@
    }

    /// Whether the node takes this value for this parameter.
    pub open spec fn accepts(name: Seq<char>, value: Value) -> bool {
        name == "message"@ && value is String
    }

    /// The value of a parameter; nothing under an unknown name.
    pub open spec fn parameter(self, name: Seq<char>) -> Option<Value> {
        if name == "message"@ {
            Some(Value::String(self.message))
        } else {
            None
        }
    }

    /// The node after a parameter was set: changed where the node takes the
    /// value, the same node otherwise.
    pub open spec fn after_set(self, name: Seq<char>, value: Value) -> HelloWorldView {
        match value {
            Value::String(text) if name == "message"@ => HelloWorldView { message: text, ..self },
            _ => self,
        }
    }

    /// The node after an event from the editor.
    pub open spec fn after_action(self, action: UIActionView) -> HelloWorldView {
        match action {
            UIActionView::ParameterChanged { parameter, value } => {
                if Self::accepts(parameter, value) {
                    HelloWorldView { message: value->String_0, ..self }
                } else {
                    self
                }
            },
            UIActionView::ButtonClicked { .. } => self,
        }
    }

    /// What the node answers to an event: the one change it made, or nothing.
    pub open spec fn changes(action: UIActionView) -> Seq<ParameterChangeView> {
        match action {
            UIActionView::ParameterChanged { parameter, value } => {
                if Self::accepts(parameter, value) {
                    seq![ParameterChangeView { parameter: "message"@, value }]
                } else {
                    seq![]
                }
            },
            UIActionView::ButtonClicked { .. } => seq![],
        }
    }

    /// The editing surface of the node.
    pub open spec fn ui(self) -> Seq<UIElementView> {
        seq![
            UIElementView::Heading("Hello World Node"@),
            UIElementView::Separator,
            UIElementView::TextEdit {
                label: "Message"@,
                value: self.message,
                parameter_name: "message"@,
            },
        ]
    }

    /// What the node gives out: its message on the port `Message`.
    pub open spec fn outputs(self) -> Map<Seq<char>, Value> {
        Map::empty().insert("Message"@, Value::String(self.message))
    }
}

/// Greeting nodes made from different serial numbers have different
/// identifiers.
pub proof fn lemma_identifiers_differ(first: u128, second: u128)
    requires
        first != second,
    ensures
        HelloWorldView::identifier(first) != HelloWorldView::identifier(second),
{
    reveal_strlit("hello_world_");
    lemma_hex_digits_differ(first as nat, second as nat);
    let a = HelloWorldView::identifier(first);
    let b = HelloWorldView::identifier(second);
    assert(a.subrange(12, a.len() as int) =~= hex_digits(first as nat));
    assert(b.subrange(12, b.len() as int) =~= hex_digits(second as nat));
}

/// The greeting node that takes the next serial number of a generator differs
/// in its identifier from the one that takes the number after it, and, as
/// long as the generator has not been through all the serial numbers, from
/// every one that took an earlier number.
pub proof fn lemma_earlier_identifiers_differ(ids: IdGeneratorView)
    ensures
        HelloWorldView::identifier(ids.after_draw().next) != HelloWorldView::identifier(ids.next),
        !ids.spent() ==> forall|serial: u128|
            ids.issued().contains(serial) ==> #[trigger] HelloWorldView::identifier(serial)
                != HelloWorldView::identifier(ids.next),
{
    lemma_draw_moves_on(ids);
    lemma_identifiers_differ(ids.after_draw().next, ids.next);
    if !ids.spent() {
        lemma_next_is_fresh(ids);
        assert forall|serial: u128| ids.issued().contains(serial) implies
            #[trigger] HelloWorldView::identifier(serial) != HelloWorldView::identifier(ids.next) by {
            lemma_identifiers_differ(serial, ids.next);
        }
    }
}

/// A greeting node.
#[derive(Debug)]
pub struct HelloWorldNode {
    id: String,
    position: Pos2,
    message: String,
}

impl View for HelloWorldNode {
    type V = HelloWorldView;

    closed spec fn view(&self) -> HelloWorldView {
        HelloWorldView { id: self.id@, position: self.position, message: self.message@ }
    }
}

impl HelloWorldNode {
    /// A node at the given position, with the default message. Its
    /// identifier comes from the generator's next serial number, so it
    /// differs from that of every node that drew from the generator before,
    /// unless the generator has been through all the serial numbers there
    /// are.
    pub fn new(position: Pos2, ids: &mut IdGenerator) -> (node: HelloWorldNode)
        ensures
            node@ == HelloWorldView::fresh(position, old(ids)@.next),
            final(ids)@ == old(ids)@.after_draw(),
            final(ids)@.issued() == old(ids)@.issued().insert(old(ids)@.next),
            HelloWorldView::identifier(final(ids)@.next) != node@.id,
            !old(ids)@.spent() ==> forall|serial: u128|
                old(ids)@.issued().contains(serial) ==> #[trigger] HelloWorldView::identifier(serial)
                    != node@.id,
    {
        proof {
            lemma_earlier_identifiers_differ(ids@);
        }
        let suffix = uuid(ids);
        HelloWorldNode {
            id: "hello_world_".to_owned().concat(suffix.as_str()),
            position,
            message: "Hello from plugin!".to_owned(),
        }
    }

    /// The identifier of this node.
    pub fn id(&self) -> (id: String)
        ensures
            id@ == self@.id,
    {
        self.id.clone()
    }

    /// Where the node sits.
    pub fn position(&self) -> (position: Pos2)
        ensures
            position == self@.position,
    {
        self.position
    }

    /// Moves the node.
    pub fn set_position(&mut self, position: Pos2)
        ensures
            final(self)@ == (HelloWorldView { position, ..old(self)@ }),
    {
        self.position = position;
    }

    /// The editing surface, built from the present state.
    pub fn get_parameter_ui(&self) -> (ui: ParameterUI)
        ensures
            ui@ == self@.ui(),
    {
        let mut elements: Vec<UIElement> = Vec::new();
        elements.push(UIElement::Heading("Hello World Node".to_owned()));
        elements.push(UIElement::Separator);
        elements.push(
            UIElement::TextEdit {
                label: "Message".to_owned(),
                value: self.message.clone(),
                parameter_name: "message".to_owned(),
            },
        );
        let ui = ParameterUI { elements };
        assert(ui@ =~= self@.ui());
        ui
    }

    /// Applies an event from the editor and reports what took effect.
    pub fn handle_ui_action(&mut self, action: UIAction) -> (changes: Vec<ParameterChange>)
        ensures
            final(self)@ == old(self)@.after_action(action@),
            changes.deep_view() == HelloWorldView::changes(action@),
    {
        let mut changes: Vec<ParameterChange> = Vec::new();
        match action {
            UIAction::ParameterChanged { parameter, value } => {
                if same_text(parameter.as_str(), "message") {
                    match value {
                        NodeData::String(text) => {
                            self.message = text;
                            changes.push(
                                ParameterChange {
                                    parameter: "message".to_owned(),
                                    value: NodeData::String(self.message.clone()),
                                },
                            );
                        },
                        NodeData::Float(_) => {},
                    }
                }
            },
            UIAction::ButtonClicked { .. } => {},
        }
        assert(changes.deep_view() =~= HelloWorldView::changes(action@));
        changes
    }

    /// The value of a parameter; nothing under an unknown name.
    pub fn get_parameter(&self, name: &str) -> (value: Option<NodeData>)
        ensures
            value.deep_view() == self@.parameter(name@),
    {
        if same_text(name, "message") {
            Some(NodeData::String(self.message.clone()))
        } else {
            None
        }
    }

    /// Sets a parameter. An unknown name, or a value of the wrong kind,
    /// changes nothing.
    pub fn set_parameter(&mut self, name: &str, value: NodeData)
        ensures
            final(self)@ == old(self)@.after_set(name@, value@),
    {
        if same_text(name, "message") {
            match value {
                NodeData::String(text) => {
                    self.message = text;
                },
                NodeData::Float(_) => {},
            }
        }
    }

    /// Gives out the message. The inputs are not read and the node does not
    /// change.
    pub fn process(&mut self, inputs: &PortValues) -> (outputs: PortValues)
        ensures
            final(self)@ == old(self)@,
            outputs@ == old(self)@.outputs(),
    {
        let mut outputs: PortValues = PortValues::new();
        outputs.insert("Message".to_owned(), NodeData::String(self.message.clone()));
        assert(outputs@ =~= self@.outputs());
        outputs
    }
}

} // verus!
