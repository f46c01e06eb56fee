//! The values that travel between nodes, and the ports they travel through.

use vstd::prelude::*;

verus! {

/// A single-precision number, held as its IEEE-754 bit pattern.
///
/// Two scalars are equal when their bit patterns are, so a NaN equals itself
/// and the two zeros differ.
#[derive(Clone, Copy, Debug, PartialEq, Eq, Structural)]
pub struct Scalar {
    pub bits: u32,
}

impl Scalar {
    /// The scalar with the given bit pattern.
    pub fn from_bits(bits: u32) -> (scalar: Scalar)
        ensures
            scalar.bits == bits,
    {
        Scalar { bits }
    }

    /// The bit pattern of this scalar.
    pub fn to_bits(self) -> (bits: u32)
        ensures
            bits == self.bits,
    {
        self.bits
    }
}

/// The kind of a value.
#[derive(Clone, Copy, Debug, PartialEq, Eq, Structural)]
pub enum DataType {
    String,
    Float,
}

/// A value on a port or in a parameter.
#[derive(Debug, PartialEq, Eq)]
pub enum NodeData {
    String(String),
    Float(Scalar),
}

/// What a `NodeData` holds: its text by characters, or its number.
pub enum Value {
    String(Seq<char>),
    Float(Scalar),
}

impl Value {
    /// The kind of this value.
    pub open spec fn data_type(self) -> DataType {
        match self {
            Value::String(_) => DataType::String,
            Value::Float(_) => DataType::Float,
        }
    }
}

impl View for NodeData {
    type V = Value;

    open spec fn view(&self) -> Value {
        match self {
            NodeData::String(text) => Value::String(text@),
            NodeData::Float(number) => Value::Float(*number),
        }
    }
}

impl DeepView for NodeData {
    type V = Value;

    open spec fn deep_view(&self) -> Value {
        self@
    }
}

impl Clone for NodeData {
    fn clone(&self) -> (copy: NodeData)
        ensures
            copy == *self,
    {
        match self {
            NodeData::String(text) => NodeData::String(text.clone()),
            NodeData::Float(number) => NodeData::Float(*number),
        }
    }
}

impl NodeData {
    /// The kind of this value: always the kind of the variant that is stored.
    pub fn data_type(&self) -> (kind: DataType)
        ensures
            kind == self@.data_type(),
    {
        match self {
            NodeData::String(_) => DataType::String,
            NodeData::Float(_) => DataType::Float,
        }
    }

    /// The text of a string value; nothing for any other kind.
    pub fn as_string(&self) -> (text: Option<&str>)
        ensures
            match self@ {
                Value::String(chars) => text matches Some(t) && t@ == chars,
                Value::Float(_) => text is None,
            },
    {
        match self {
            NodeData::String(text) => Some(text.as_str()),
            NodeData::Float(_) => None,
        }
    }

    /// The number of a float value; nothing for any other kind.
    pub fn as_float(&self) -> (number: Option<Scalar>)
        ensures
            match self@ {
                Value::Float(scalar) => number == Some(scalar),
                Value::String(_) => number is None,
            },
    {
        match self {
            NodeData::Float(number) => Some(*number),
            NodeData::String(_) => None,
        }
    }
}

/// What a `PortDefinition` holds.
pub struct PortView {
    pub name: Seq<char>,
    pub data_type: DataType,
    pub required: bool,
}

/// A named, typed input or output slot of a node type.
#[derive(Debug, PartialEq, Eq)]
pub struct PortDefinition {
    pub name: String,
    pub data_type: DataType,
    pub required: bool,
}

impl View for PortDefinition {
    type V = PortView;

    open spec fn view(&self) -> PortView {
        PortView { name: self.name@, data_type: self.data_type, required: self.required }
    }
}

impl DeepView for PortDefinition {
    type V = PortView;

    open spec fn deep_view(&self) -> PortView {
        self@
    }
}

impl Clone for PortDefinition {
    fn clone(&self) -> (copy: PortDefinition)
        ensures
            copy == *self,
    {
        PortDefinition {
            name: self.name.clone(),
            data_type: self.data_type,
            required: self.required,
        }
    }
}

impl PortDefinition {
    /// A port that must be connected.
    pub fn required(name: &str, data_type: DataType) -> (port: PortDefinition)
        ensures
            port@ == (PortView { name: name@, data_type, required: true }),
    {
        PortDefinition { name: name.to_owned(), data_type, required: true }
    }
}

/// Whether no two ports of a list share a name.
pub open spec fn distinct_port_names(ports: Seq<PortView>) -> bool {
    forall|i: int, j: int|
        0 <= i < j < ports.len() ==> (#[trigger] ports[i]).name != (#[trigger] ports[j]).name
}

} // verus!
