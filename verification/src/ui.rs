//! The editing surface of a node: what it shows, what the editor sends back,
//! and what the node answers.

use crate::value::{NodeData, Scalar, Value};
use vstd::prelude::*;

verus! {

/// What a `UIElement` holds.
#[allow(inconsistent_fields)]
pub enum UIElementView {
    Heading(Seq<char>),
    Separator,
    Label(Seq<char>),
    TextEdit { label: Seq<char>, value: Seq<char>, parameter_name: Seq<char> },
    Slider { label: Seq<char>, value: Scalar, min: Scalar, max: Scalar, parameter_name: Seq<char> },
}

impl UIElementView {
    /// The parameter this element edits and the value it shows for it, where
    /// it edits one.
    pub open spec fn binding(self) -> Option<(Seq<char>, Value)> {
        match self {
            UIElementView::TextEdit { label, value, parameter_name } => Some(
                (parameter_name, Value::String(value)),
            ),
            UIElementView::Slider { label, value, min, max, parameter_name } => Some(
                (parameter_name, Value::Float(value)),
            ),
            _ => None,
        }
    }
}

/// One element of a node's editing surface.
#[allow(inconsistent_fields)]
#[derive(Debug, PartialEq, Eq)]
pub enum UIElement {
    Heading(String),
    Separator,
    Label(String),
    TextEdit { label: String, value: String, parameter_name: String },
    Slider { label: String, value: Scalar, min: Scalar, max: Scalar, parameter_name: String },
}

impl View for UIElement {
    type V = UIElementView;

    open spec fn view(&self) -> UIElementView {
        match self {
            UIElement::Heading(text) => UIElementView::Heading(text@),
            UIElement::Separator => UIElementView::Separator,
            UIElement::Label(text) => UIElementView::Label(text@),
            UIElement::TextEdit { label, value, parameter_name } => UIElementView::TextEdit {
                label: label@,
                value: value@,
                parameter_name: parameter_name@,
            },
            UIElement::Slider { label, value, min, max, parameter_name } => UIElementView::Slider {
                label: label@,
                value: *value,
                min: *min,
                max: *max,
                parameter_name: parameter_name@,
            },
        }
    }
}

impl DeepView for UIElement {
    type V = UIElementView;

    open spec fn deep_view(&self) -> UIElementView {
        self@
    }
}

/// A node's editing surface, top to bottom.
#[derive(Debug, PartialEq, Eq)]
pub struct ParameterUI {
    pub elements: Vec<UIElement>,
}

impl View for ParameterUI {
    type V = Seq<UIElementView>;

    open spec fn view(&self) -> Seq<UIElementView> {
        self.elements.deep_view()
    }
}

/// What a `UIAction` holds.
pub enum UIActionView {
    ParameterChanged { parameter: Seq<char>, value: Value },
    ButtonClicked { action: Seq<char> },
}

/// An event from the editor.
#[derive(Debug, PartialEq, Eq)]
pub enum UIAction {
    /// The user set `parameter` to `value`.
    ParameterChanged { parameter: String, value: NodeData },
    /// The user pressed the button that carries `action`.
    ButtonClicked { action: String },
}

impl View for UIAction {
    type V = UIActionView;

    open spec fn view(&self) -> UIActionView {
        match self {
            UIAction::ParameterChanged { parameter, value } => UIActionView::ParameterChanged {
                parameter: parameter@,
                value: value@,
            },
            UIAction::ButtonClicked { action } => UIActionView::ButtonClicked { action: action@ },
        }
    }
}

/// What a `ParameterChange` holds.
pub struct ParameterChangeView {
    pub parameter: Seq<char>,
    pub value: Value,
}

/// A node's answer to an event: the parameter it changed and the value it
/// settled on.
#[derive(Debug, PartialEq, Eq)]
pub struct ParameterChange {
    pub parameter: String,
    pub value: NodeData,
}

impl View for ParameterChange {
    type V = ParameterChangeView;

    open spec fn view(&self) -> ParameterChangeView {
        ParameterChangeView { parameter: self.parameter@, value: self.value@ }
    }
}

impl DeepView for ParameterChange {
    type V = ParameterChangeView;

    open spec fn deep_view(&self) -> ParameterChangeView {
        self@
    }
}

} // verus!
