//! The adding node: it holds two numbers and gives out their sum.
//!
//! Numbers are held as bit patterns. The node decides which numbers are
//! added and where the sum goes; the addition itself, and the text of a sum,
//! come from the caller.

use crate::ident::{
    lemma_draw_moves_on, lemma_next_is_fresh, uuid, IdGenerator, IdGeneratorView,
};
use crate::layout::{Color32, Pos2};
use crate::metadata::{MetadataView, NodeCategory, NodeMetadata};
use crate::text::{hex_digits, lemma_hex_digits_differ, same_text};
use crate::ui::{
    ParameterChange, ParameterChangeView, ParameterUI, UIAction, UIActionView, UIElement,
    UIElementView,
};
use crate::ports::PortValues;
use crate::value::{DataType, NodeData, PortDefinition, PortView, Scalar, Value};
use vstd::prelude::*;
use vstd::string::StringExecFns;

verus! {

/// The bit pattern of zero.
pub const ZERO_BITS: u32 = 0;

/// The bit pattern of one hundred, the upper end of both sliders.
pub const SLIDER_MAX_BITS: u32 = 0x42C8_0000;

/// The bit pattern of minus one hundred, the lower end of both sliders.
pub const SLIDER_MIN_BITS: u32 = 0xC2C8_0000;

/// The description of the adding node type.
pub open spec fn math_add_metadata() -> MetadataView {
    MetadataView {
        type_id: "Add"@,
        display_name: "Add (Plugin)"@,
        category: NodeCategory::Math,
        description: "Adds two numbers together (from plugin)"@,
        workspace_compatibility: seq!["3D"@, "General"@],
        color: Color32 { r: 100, g: 150, b: 255, a: 255 },
        icon: "➕"@,
        inputs: seq![
            PortView { name: "A"@, data_type: DataType::Float, required: true },
            PortView { name: "B"@, data_type: DataType::Float, required: true },
        ],
        outputs: seq![PortView { name: "Result"@, data_type: DataType::Float, required: true }],
    }
}

/// The factory of adding nodes.
#[derive(Clone, Copy, Debug, PartialEq, Eq, Structural)]
pub struct MathAddNodeFactory;

impl MathAddNodeFactory {
    /// The description of the node type; the same at every call.
    pub fn metadata(&self) -> (metadata: NodeMetadata)
        ensures
            metadata@ == math_add_metadata(),
            metadata@.well_formed(),
    {
        let mut workspaces: Vec<String> = Vec::new();
        workspaces.push("3D".to_owned());
        workspaces.push("General".to_owned());
        let mut inputs: Vec<PortDefinition> = Vec::new();
        inputs.push(PortDefinition::required("A", DataType::Float));
        inputs.push(PortDefinition::required("B", DataType::Float));
        let mut outputs: Vec<PortDefinition> = Vec::new();
        outputs.push(PortDefinition::required("Result", DataType::Float));
        let metadata = NodeMetadata {
            type_id: "Add".to_owned(),
            display_name: "Add (Plugin)".to_owned(),
            category: NodeCategory::Math,
            description: "Adds two numbers together (from plugin)".to_owned(),
            workspace_compatibility: workspaces,
            color: Color32::from_rgb(100, 150, 255),
            icon: "➕".to_owned(),
            inputs,
            outputs,
        };
        proof {
            assert(metadata@.workspace_compatibility =~= math_add_metadata().workspace_compatibility);
            assert(metadata@.inputs =~= math_add_metadata().inputs);
            assert(metadata@.outputs =~= math_add_metadata().outputs);
            lemma_input_names_differ();
        }
        metadata
    }

    /// A new adding node at the given position, with both numbers zero. Its
    /// identifier comes from the generator's next serial number.
    pub fn create_node(&self, position: Pos2, ids: &mut IdGenerator) -> (node: MathAddNode)
        ensures
            node@ == MathAddView::fresh(position, old(ids)@.next),
            final(ids)@ == old(ids)@.after_draw(),
            final(ids)@.issued() == old(ids)@.issued().insert(old(ids)@.next),
            MathAddView::identifier(final(ids)@.next) != node@.id,
            !old(ids)@.spent() ==> forall|serial: u128|
                old(ids)@.issued().contains(serial) ==> #[trigger] MathAddView::identifier(serial)
                    != node@.id,
    {
        MathAddNode::new(position, ids)
    }
}

/// The names of the two input ports differ, and so do those of the two
/// parameters.
pub proof fn lemma_input_names_differ()
    ensures
        "A"@ != "B"@,
        "a"@ != "b"@,
{
    reveal_strlit("A");
    reveal_strlit("B");
    reveal_strlit("a");
    reveal_strlit("b");
    assert("A"@[0] != "B"@[0]);
    assert("a"@[0] != "b"@[0]);
}

/// What an adding node holds.
pub struct MathAddView {
    pub id: Seq<char>,
    pub position: Pos2,
    pub a: Scalar,
    pub b: Scalar,
}

/// The number that an input port carries, if it carries one.
pub open spec fn float_input(inputs: Map<Seq<char>, Value>, port: Seq<char>) -> Option<Scalar> {
    if inputs.contains_key(port) {
        match inputs[port] {
            Value::Float(number) => Some(number),
            Value::String(_) => None,
        }
    } else {
        None
    }
}

impl MathAddView {
    /// The identifier of the node made from a serial number.
    pub open spec fn identifier(serial: u128) -> Seq<char> {
        "math_add_"@ + hex_digits(serial as nat)
    }

    /// The node that a factory makes at a position from a serial number.
    pub open spec fn fresh(position: Pos2, serial: u128) -> MathAddView {
        MathAddView {
            id: Self::identifier(serial),
            position,
            a: Scalar { bits: ZERO_BITS },
            b: Scalar { bits: ZERO_BITS },
        }
    }

    /// Whether the node has a parameter of this name.
    pub open spec fn declares(name: Seq<char>) -> bool {
        name == "a"@ || name == "b"@
    }

    /// Whether the node takes this value for this parameter.
    pub open spec fn accepts(name: Seq<char>, value: Value) -> bool {
        Self::declares(name) && value is Float
    }

    /// The value of a parameter; nothing under an unknown name.
    pub open spec fn parameter(self, name: Seq<char>) -> Option<Value> {
        if name == "a"@ {
            Some(Value::Float(self.a))
        } else if name == "b"@ {
            Some(Value::Float(self.b))
        } else {
            None
        }
    }

    /// The node after a parameter was set: changed where the node takes the
    /// value, the same node otherwise.
    pub open spec fn after_set(self, name: Seq<char>, value: Value) -> MathAddView {
        match value {
            Value::Float(number) if name == "a"@ => MathAddView { a: number, ..self },
            Value::Float(number) if name == "b"@ => MathAddView { b: number, ..self },
            _ => self,
        }
    }

    /// The node after an event from the editor.
    pub open spec fn after_action(self, action: UIActionView) -> MathAddView {
        match action {
            UIActionView::ParameterChanged { parameter, value } => {
                if !Self::accepts(parameter, value) {
                    self
                } else if parameter == "a"@ {
                    MathAddView { a: value->Float_0, ..self }
                } else {
                    MathAddView { b: value->Float_0, ..self }
                }
            },
            UIActionView::ButtonClicked { .. } => self,
        }
    }

    /// What the node answers to an event: the one change it made, or nothing.
    pub open spec fn changes(action: UIActionView) -> Seq<ParameterChangeView> {
        match action {
            UIActionView::ParameterChanged { parameter, value } => {
                if Self::accepts(parameter, value) {
                    seq![ParameterChangeView { parameter, value }]
                } else {
                    seq![]
                }
            },
            UIActionView::ButtonClicked { .. } => seq![],
        }
    }

    /// The node after it took its numbers from the inputs: a number on port
    /// `A` replaces `a`, one on port `B` replaces `b`, and what is missing or
    /// of another kind leaves the stored number in place.
    pub open spec fn after_inputs(self, inputs: Map<Seq<char>, Value>) -> MathAddView {
        MathAddView {
            a: match float_input(inputs, "A"@) {
                Some(number) => number,
                None => self.a,
            },
            b: match float_input(inputs, "B"@) {
                Some(number) => number,
                None => self.b,
            },
            ..self
        }
    }

    /// The editing surface of the node, given the text of the present sum.
    pub open spec fn ui(self, sum_text: Seq<char>) -> Seq<UIElementView> {
        seq![
            UIElementView::Heading("Math Add Node (Plugin)"@),
            UIElementView::Separator,
            UIElementView::Slider {
                label: "A"@,
                value: self.a,
                min: Scalar { bits: SLIDER_MIN_BITS },
                max: Scalar { bits: SLIDER_MAX_BITS },
                parameter_name: "a"@,
            },
            UIElementView::Slider {
                label: "B"@,
                value: self.b,
                min: Scalar { bits: SLIDER_MIN_BITS },
                max: Scalar { bits: SLIDER_MAX_BITS },
                parameter_name: "b"@,
            },
            UIElementView::Label("Result: "@ + sum_text),
        ]
    }

    /// What the node gives out, given the sum: the sum on the port `Result`.
    pub open spec fn outputs(sum: Scalar) -> Map<Seq<char>, Value> {
        Map::empty().insert("Result"@, Value::Float(sum))
    }
}

/// Adding nodes made from different serial numbers have different
/// identifiers.
pub proof fn lemma_identifiers_differ(first: u128, second: u128)
    requires
        first != second,
    ensures
        MathAddView::identifier(first) != MathAddView::identifier(second),
{
    reveal_strlit("math_add_");
    lemma_hex_digits_differ(first as nat, second as nat);
    let a = MathAddView::identifier(first);
    let b = MathAddView::identifier(second);
    assert(a.subrange(9, a.len() as int) =~= hex_digits(first as nat));
    assert(b.subrange(9, b.len() as int) =~= hex_digits(second as nat));
}

/// The adding node that takes the next serial number of a generator differs
/// in its identifier from the one that takes the number after it, and, as
/// long as the generator has not been through all the serial numbers, from
/// every one that took an earlier number.
pub proof fn lemma_earlier_identifiers_differ(ids: IdGeneratorView)
    ensures
        MathAddView::identifier(ids.after_draw().next) != MathAddView::identifier(ids.next),
        !ids.spent() ==> forall|serial: u128|
            ids.issued().contains(serial) ==> #[trigger] MathAddView::identifier(serial)
                != MathAddView::identifier(ids.next),
{
    lemma_draw_moves_on(ids);
    lemma_identifiers_differ(ids.after_draw().next, ids.next);
    if !ids.spent() {
        lemma_next_is_fresh(ids);
        assert forall|serial: u128| ids.issued().contains(serial) implies
            #[trigger] MathAddView::identifier(serial) != MathAddView::identifier(ids.next) by {
            lemma_identifiers_differ(serial, ids.next);
        }
    }
}

/// An adding node.
#[derive(Debug)]
pub struct MathAddNode {
    id: String,
    position: Pos2,
    a: Scalar,
    b: Scalar,
}

impl View for MathAddNode {
    type V = MathAddView;

    closed spec fn view(&self) -> MathAddView {
        MathAddView { id: self.id@, position: self.position, a: self.a, b: self.b }
    }
}

/// The number that an input port carries, if it carries one.
fn read_float(inputs: &PortValues, port: &str) -> (number: Option<Scalar>)
    ensures
        number == float_input(inputs@, port@),
{
    match inputs.get(port) {
        Some(NodeData::Float(number)) => Some(*number),
        _ => None,
    }
}

impl MathAddNode {
    /// A node at the given position, with both numbers zero. Its identifier
    /// comes from the generator's next serial number, so it differs from
    /// that of every node that drew from the generator before, unless the
    /// generator has been through all the serial numbers there are.
    pub fn new(position: Pos2, ids: &mut IdGenerator) -> (node: MathAddNode)
        ensures
            node@ == MathAddView::fresh(position, old(ids)@.next),
            final(ids)@ == old(ids)@.after_draw(),
            final(ids)@.issued() == old(ids)@.issued().insert(old(ids)@.next),
            MathAddView::identifier(final(ids)@.next) != node@.id,
            !old(ids)@.spent() ==> forall|serial: u128|
                old(ids)@.issued().contains(serial) ==> #[trigger] MathAddView::identifier(serial)
                    != node@.id,
    {
        proof {
            lemma_earlier_identifiers_differ(ids@);
        }
        let suffix = uuid(ids);
        MathAddNode {
            id: "math_add_".to_owned().concat(suffix.as_str()),
            position,
            a: Scalar::from_bits(ZERO_BITS),
            b: Scalar::from_bits(ZERO_BITS),
        }
    }

    /// The identifier of this node.
    pub fn id(&self) -> (id: String)
        ensures
            id@ == self@.id,
    {
        self.id.clone()
    }

    /// Where the node sits.
    pub fn position(&self) -> (position: Pos2)
        ensures
            position == self@.position,
    {
        self.position
    }

    /// Moves the node.
    pub fn set_position(&mut self, position: Pos2)
        ensures
            final(self)@ == (MathAddView { position, ..old(self)@ }),
    {
        self.position = position;
    }

    /// The editing surface, built from the present state. `sum_text` is
    /// called once, on the two numbers, for the text of their sum.
    pub fn get_parameter_ui<F: Fn(Scalar, Scalar) -> String>(&self, sum_text: F) -> (ui:
        ParameterUI)
        requires
            sum_text.requires((self@.a, self@.b)),
        ensures
            exists|text: String|
                sum_text.ensures((self@.a, self@.b), text) && ui@ == self@.ui(text@),
    {
        let text = sum_text(self.a, self.b);
        let mut elements: Vec<UIElement> = Vec::new();
        elements.push(UIElement::Heading("Math Add Node (Plugin)".to_owned()));
        elements.push(UIElement::Separator);
        elements.push(
            UIElement::Slider {
                label: "A".to_owned(),
                value: self.a,
                min: Scalar::from_bits(SLIDER_MIN_BITS),
                max: Scalar::from_bits(SLIDER_MAX_BITS),
                parameter_name: "a".to_owned(),
            },
        );
        elements.push(
            UIElement::Slider {
                label: "B".to_owned(),
                value: self.b,
                min: Scalar::from_bits(SLIDER_MIN_BITS),
                max: Scalar::from_bits(SLIDER_MAX_BITS),
                parameter_name: "b".to_owned(),
            },
        );
        elements.push(UIElement::Label("Result: ".to_owned().concat(text.as_str())));
        let ui = ParameterUI { elements };
        assert(ui@ =~= self@.ui(text@));
        ui
    }

    /// Applies an event from the editor and reports what took effect.
    pub fn handle_ui_action(&mut self, action: UIAction) -> (changes: Vec<ParameterChange>)
        ensures
            final(self)@ == old(self)@.after_action(action@),
            changes.deep_view() == MathAddView::changes(action@),
    {
        let mut changes: Vec<ParameterChange> = Vec::new();
        match action {
            UIAction::ParameterChanged { parameter, value } => {
                if same_text(parameter.as_str(), "a") {
                    match value.as_float() {
                        Some(number) => {
                            self.a = number;
                            changes.push(
                                ParameterChange {
                                    parameter: "a".to_owned(),
                                    value: NodeData::Float(number),
                                },
                            );
                        },
                        None => {},
                    }
                } else if same_text(parameter.as_str(), "b") {
                    match value.as_float() {
                        Some(number) => {
                            self.b = number;
                            changes.push(
                                ParameterChange {
                                    parameter: "b".to_owned(),
                                    value: NodeData::Float(number),
                                },
                            );
                        },
                        None => {},
                    }
                }
            },
            UIAction::ButtonClicked { .. } => {},
        }
        assert(changes.deep_view() =~= MathAddView::changes(action@));
        changes
    }

    /// The value of a parameter; nothing under an unknown name.
    pub fn get_parameter(&self, name: &str) -> (value: Option<NodeData>)
        ensures
            value.deep_view() == self@.parameter(name@),
    {
        if same_text(name, "a") {
            Some(NodeData::Float(self.a))
        } else if same_text(name, "b") {
            Some(NodeData::Float(self.b))
        } else {
            None
        }
    }

    /// Sets a parameter. An unknown name, or a value of the wrong kind,
    /// changes nothing.
    pub fn set_parameter(&mut self, name: &str, value: NodeData)
        ensures
            final(self)@ == old(self)@.after_set(name@, value@),
    {
        if same_text(name, "a") {
            match value.as_float() {
                Some(number) => {
                    self.a = number;
                },
                None => {},
            }
        } else if same_text(name, "b") {
            match value.as_float() {
                Some(number) => {
                    self.b = number;
                },
                None => {},
            }
        }
    }

    /// Takes the numbers that the inputs carry, keeps them, and gives out
    /// their sum. `adder` is called once, on the two numbers the node then
    /// holds.
    pub fn process<F: Fn(Scalar, Scalar) -> Scalar>(&mut self, inputs: &PortValues, adder: F) -> (outputs:
        PortValues)
        requires
            adder.requires(
                (
                    old(self)@.after_inputs(inputs@).a,
                    old(self)@.after_inputs(inputs@).b,
                ),
            ),
        ensures
            final(self)@ == old(self)@.after_inputs(inputs@),
            outputs@.contains_key("Result"@),
            ({
                &&& outputs@["Result"@] matches Value::Float(sum)
                &&& adder.ensures((final(self)@.a, final(self)@.b), sum)
                &&& outputs@ == MathAddView::outputs(sum)
            }),
    {
        match read_float(inputs, "A") {
            Some(number) => {
                self.a = number;
            },
            None => {},
        }
        match read_float(inputs, "B") {
            Some(number) => {
                self.b = number;
            },
            None => {},
        }
        let sum = adder(self.a, self.b);
        let mut outputs: PortValues = PortValues::new();
        outputs.insert("Result".to_owned(), NodeData::Float(sum));
        assert(outputs@ =~= MathAddView::outputs(sum));
        outputs
    }
}

} // verus!
