//! Typed values and the shapes that parameters declare.
//!
//! A parameter has one of a closed set of shapes. Booleans and enumerations
//! have no channel of their own at the native boundary: both travel on the
//! integer channel.

use vstd::prelude::*;
use crate::native::{Channel, Raw};
use crate::state::SourceState;

verus! {

/// The orientation of a listener: the bit patterns of its up vector and of
/// its at vector.
#[derive(Debug, Default, Clone, Copy, PartialEq, Eq)]
pub struct Orientation {
    pub up: [u32; 3],
    pub at: [u32; 3],
}

/// What a native answer is read as.
#[derive(Debug, Clone, Copy, PartialEq, Eq, Structural)]
pub enum Shape {
    /// The call has no answer.
    Unit,
    /// A boolean carried by a native boolean.
    Flag,
    /// A boolean carried on the integer channel.
    Bool,
    Int,
    Int3,
    Float,
    Float3,
    Orientation,
    /// A source state carried on the integer channel.
    State,
    Name,
    Pointer,
    Text,
}

/// A typed value.
#[derive(Debug, Clone, PartialEq, Eq)]
pub enum Value {
    Unit,
    Bool(bool),
    Int(i32),
    Int3([i32; 3]),
    /// The bit pattern of one float.
    Float(u32),
    /// The bit patterns of three floats.
    Float3([u32; 3]),
    Orientation(Orientation),
    State(SourceState),
    Name(u32),
    Pointer(u64),
    Text(String),
}

impl Shape {
    /// The channel on which a parameter of this shape is read and written,
    /// if it is the shape of a parameter.
    pub open spec fn spec_channel(self) -> Option<Channel> {
        match self {
            Shape::Bool | Shape::Int | Shape::State => Some(Channel::Int),
            Shape::Int3 => Some(Channel::Int3),
            Shape::Float => Some(Channel::Float),
            Shape::Float3 => Some(Channel::Float3),
            Shape::Orientation => Some(Channel::Float6),
            _ => None,
        }
    }

    /// Whether a native answer has the form that this shape is read from.
    pub open spec fn fits(self, raw: Raw) -> bool {
        match self {
            Shape::Unit => raw is Nothing,
            Shape::Flag => raw is Flag,
            Shape::Bool | Shape::Int | Shape::State => raw is Int,
            Shape::Int3 => raw is Int3,
            Shape::Float => raw is Float,
            Shape::Float3 => raw is Float3,
            Shape::Orientation => raw is Float6,
            Shape::Name => raw is Name,
            Shape::Pointer => raw is Pointer,
            Shape::Text => raw is Text,
        }
    }

    /// Whether a native answer can be read as this shape: it has the right
    /// form, and an enumeration's integer lies in its domain.
    pub open spec fn admits(self, raw: Raw) -> bool {
        &&& self.fits(raw)
        &&& self == Shape::State ==> (raw matches Raw::Int(code) && SourceState::of_code(code)
            is Some)
    }

    /// The value that a native answer stands for, read as this shape.
    pub open spec fn read(self, raw: Raw) -> Value
        recommends
            self.admits(raw),
    {
        match (self, raw) {
            (Shape::Flag, Raw::Flag(flag)) => Value::Bool(flag != 0),
            (Shape::Bool, Raw::Int(v)) => Value::Bool(v != 0),
            (Shape::Int, Raw::Int(v)) => Value::Int(v),
            (Shape::Int3, Raw::Int3(v)) => Value::Int3(v),
            (Shape::Float, Raw::Float(bits)) => Value::Float(bits),
            (Shape::Float3, Raw::Float3(bits)) => Value::Float3(bits),
            (Shape::Orientation, Raw::Float6(bits)) => Value::Orientation(
                Orientation { up: [bits[0], bits[1], bits[2]], at: [bits[3], bits[4], bits[5]] },
            ),
            (Shape::State, Raw::Int(code)) => Value::State(SourceState::of_code(code).unwrap()),
            (Shape::Name, Raw::Name(name)) => Value::Name(name),
            (Shape::Pointer, Raw::Pointer(address)) => Value::Pointer(address),
            (Shape::Text, Raw::Text(text)) => Value::Text(text),
            _ => Value::Unit,
        }
    }

    /// The channel of a parameter of this shape.
    pub fn channel(&self) -> (channel: Option<Channel>)
        ensures
            channel == self.spec_channel(),
    {
        match self {
            Shape::Bool | Shape::Int | Shape::State => Some(Channel::Int),
            Shape::Int3 => Some(Channel::Int3),
            Shape::Float => Some(Channel::Float),
            Shape::Float3 => Some(Channel::Float3),
            Shape::Orientation => Some(Channel::Float6),
            _ => None,
        }
    }

    /// Whether the answer has the form that this shape is read from.
    pub fn accepts(&self, raw: &Raw) -> (ok: bool)
        ensures
            ok == self.fits(*raw),
    {
        match (self, raw) {
            (Shape::Unit, Raw::Nothing) => true,
            (Shape::Flag, Raw::Flag(_)) => true,
            (Shape::Bool, Raw::Int(_)) => true,
            (Shape::Int, Raw::Int(_)) => true,
            (Shape::State, Raw::Int(_)) => true,
            (Shape::Int3, Raw::Int3(_)) => true,
            (Shape::Float, Raw::Float(_)) => true,
            (Shape::Float3, Raw::Float3(_)) => true,
            (Shape::Orientation, Raw::Float6(_)) => true,
            (Shape::Name, Raw::Name(_)) => true,
            (Shape::Pointer, Raw::Pointer(_)) => true,
            (Shape::Text, Raw::Text(_)) => true,
            _ => false,
        }
    }

    /// Whether the answer can be read as this shape.
    pub fn can_decode(&self, raw: &Raw) -> (ok: bool)
        ensures
            ok == self.admits(*raw),
    {
        match (self, raw) {
            (Shape::State, Raw::Int(code)) => SourceState::from_i32(*code).is_some(),
            _ => self.accepts(raw),
        }
    }

    /// Reads a native answer as this shape.
    pub fn decode(&self, raw: Raw) -> (value: Value)
        requires
            self.admits(raw),
        ensures
            value == self.read(raw),
    {
        match (self, raw) {
            (Shape::Flag, Raw::Flag(flag)) => Value::Bool(flag != 0),
            (Shape::Bool, Raw::Int(v)) => Value::Bool(v != 0),
            (Shape::Int, Raw::Int(v)) => Value::Int(v),
            (Shape::Int3, Raw::Int3(v)) => Value::Int3(v),
            (Shape::Float, Raw::Float(bits)) => Value::Float(bits),
            (Shape::Float3, Raw::Float3(bits)) => Value::Float3(bits),
            (Shape::Orientation, Raw::Float6(bits)) => Value::Orientation(
                Orientation { up: [bits[0], bits[1], bits[2]], at: [bits[3], bits[4], bits[5]] },
            ),
            (Shape::State, Raw::Int(code)) => match SourceState::from_i32(code) {
                Some(state) => Value::State(state),
                None => Value::Unit,
            },
            (Shape::Name, Raw::Name(name)) => Value::Name(name),
            (Shape::Pointer, Raw::Pointer(address)) => Value::Pointer(address),
            (Shape::Text, Raw::Text(text)) => Value::Text(text),
            _ => Value::Unit,
        }
    }
}

impl Value {
    /// The shape of this value.
    pub open spec fn spec_shape(self) -> Shape {
        match self {
            Value::Unit => Shape::Unit,
            Value::Bool(_) => Shape::Bool,
            Value::Int(_) => Shape::Int,
            Value::Int3(_) => Shape::Int3,
            Value::Float(_) => Shape::Float,
            Value::Float3(_) => Shape::Float3,
            Value::Orientation(_) => Shape::Orientation,
            Value::State(_) => Shape::State,
            Value::Name(_) => Shape::Name,
            Value::Pointer(_) => Shape::Pointer,
            Value::Text(_) => Shape::Text,
        }
    }

    /// The form in which this value crosses the native boundary.
    pub open spec fn wire(self) -> Raw {
        match self {
            Value::Unit => Raw::Nothing,
            Value::Bool(b) => Raw::Int(if b { 1i32 } else { 0i32 }),
            Value::Int(v) => Raw::Int(v),
            Value::Int3(v) => Raw::Int3(v),
            Value::Float(bits) => Raw::Float(bits),
            Value::Float3(bits) => Raw::Float3(bits),
            Value::Orientation(o) => Raw::Float6(
                [o.up[0], o.up[1], o.up[2], o.at[0], o.at[1], o.at[2]],
            ),
            Value::State(state) => Raw::Int(state.code()),
            Value::Name(name) => Raw::Name(name),
            Value::Pointer(address) => Raw::Pointer(address),
            Value::Text(text) => Raw::Text(text),
        }
    }

    pub fn shape(&self) -> (shape: Shape)
        ensures
            shape == self.spec_shape(),
    {
        match self {
            Value::Unit => Shape::Unit,
            Value::Bool(_) => Shape::Bool,
            Value::Int(_) => Shape::Int,
            Value::Int3(_) => Shape::Int3,
            Value::Float(_) => Shape::Float,
            Value::Float3(_) => Shape::Float3,
            Value::Orientation(_) => Shape::Orientation,
            Value::State(_) => Shape::State,
            Value::Name(_) => Shape::Name,
            Value::Pointer(_) => Shape::Pointer,
            Value::Text(_) => Shape::Text,
        }
    }

    /// Puts this value in the form in which it crosses the native boundary.
    pub fn encode(self) -> (raw: Raw)
        ensures
            raw == self.wire(),
    {
        match self {
            Value::Unit => Raw::Nothing,
            Value::Bool(b) => Raw::Int(if b { 1 } else { 0 }),
            Value::Int(v) => Raw::Int(v),
            Value::Int3(v) => Raw::Int3(v),
            Value::Float(bits) => Raw::Float(bits),
            Value::Float3(bits) => Raw::Float3(bits),
            Value::Orientation(o) => Raw::Float6(
                [o.up[0], o.up[1], o.up[2], o.at[0], o.at[1], o.at[2]],
            ),
            Value::State(state) => Raw::Int(state.to_i32()),
            Value::Name(name) => Raw::Name(name),
            Value::Pointer(address) => Raw::Pointer(address),
            Value::Text(text) => Raw::Text(text),
        }
    }
}

/// A value's wire form can always be read as the value's own shape, and
/// reading it gives the value back: exactly, bit for bit.
pub proof fn wire_round_trips(value: Value)
    ensures
        value.spec_shape().admits(value.wire()),
        value.spec_shape().read(value.wire()) == value,
{
    match value {
        Value::Orientation(o) => {
            let bits = [o.up[0], o.up[1], o.up[2], o.at[0], o.at[1], o.at[2]];
            assert([bits[0], bits[1], bits[2]] =~= o.up);
            assert([bits[3], bits[4], bits[5]] =~= o.at);
        },
        _ => {},
    }
}

/// A read that is answered with the wire form of a value ends in that value:
/// a transaction that waits for the error query of such a read, and is told
/// that the error is clear, settles on the value.
pub proof fn read_answered_with_a_written_value_yields_it(
    pre: crate::transaction::Transaction,
    value: Value,
    post: crate::transaction::Transaction,
    action: crate::transaction::Action,
)
    requires
        pre.phase() == (crate::transaction::Phase::Checking { answer: value.wire() }),
        pre.shape() == value.spec_shape(),
        pre.follows(crate::transaction::Event::Answer(Raw::Int(0)), post, action),
    ensures
        crate::transaction::Transaction::outcome_of(post, action) == Ok::<
            Value,
            crate::error::AllenError,
        >(value),
{
    wire_round_trips(value);
}

} // verus!
