//! The listener of a context.

use vstd::prelude::*;
use crate::context::Context;
use crate::native::NativeCall;
use crate::operation::{Check, Operation};
use crate::properties::ListenerParam;
use crate::value::{Orientation, Shape, Value};

verus! {

/// The listener of a context. It refers to its context without keeping it
/// alive: it is borrowed from a [`Context`] value and cannot outlast that.
#[derive(Debug)]
pub struct Listener<'a> {
    pub(crate) context: &'a Context,
}

impl<'a> Listener<'a> {
    /// The context that the listener belongs to.
    pub open(crate) spec fn context(self) -> Context {
        *self.context
    }

    /// The operation that reads a parameter of the listener.
    pub open spec fn read_op(self, param: ListenerParam) -> Operation {
        let descriptor = param.descriptor();
        Operation {
            context: Some(self.context().spec_handle()),
            gate: descriptor.capability,
            setup: None,
            call: NativeCall::ListenerGet {
                param: descriptor.id,
                channel: descriptor.shape.spec_channel().unwrap(),
            },
            check: Check::Al,
            shape: descriptor.shape,
        }
    }

    /// The operation that writes a parameter of the listener.
    pub open spec fn write_op(self, param: ListenerParam, value: Value) -> Operation {
        let descriptor = param.descriptor();
        Operation {
            context: Some(self.context().spec_handle()),
            gate: descriptor.capability,
            setup: None,
            call: NativeCall::ListenerSet { param: descriptor.id, value: value.wire() },
            check: Check::Al,
            shape: Shape::Unit,
        }
    }

    /// The listener of `context`.
    pub fn new(context: &'a Context) -> (listener: Listener<'a>)
        ensures
            listener.context() == *context,
    {
        Listener { context }
    }

    /// The operation that reads a parameter. It makes the listener's context
    /// current, reads the parameter on the channel of its shape, and checks
    /// the error.
    pub fn get(&self, param: ListenerParam) -> (op: Operation)
        ensures
            op == self.read_op(param),
    {
        let descriptor = param.describe();
        Operation {
            context: Some(self.context.handle()),
            gate: descriptor.capability,
            setup: None,
            call: NativeCall::ListenerGet {
                param: descriptor.id,
                channel: descriptor.shape.channel().unwrap(),
            },
            check: Check::Al,
            shape: descriptor.shape,
        }
    }

    /// The operation that writes a parameter. It makes the listener's
    /// context current, writes the value in its wire form, and checks the
    /// error.
    pub fn set(&self, param: ListenerParam, value: Value) -> (op: Operation)
        requires
            param.descriptor().takes(value),
        ensures
            op == self.write_op(param, value),
    {
        let descriptor = param.describe();
        Operation {
            context: Some(self.context.handle()),
            gate: descriptor.capability,
            setup: None,
            call: NativeCall::ListenerSet { param: descriptor.id, value: value.encode() },
            check: Check::Al,
            shape: Shape::Unit,
        }
    }

    pub fn gain(&self) -> (op: Operation)
        ensures
            op == self.read_op(ListenerParam::Gain),
    {
        self.get(ListenerParam::Gain)
    }

    pub fn set_gain(&self, value: u32) -> (op: Operation)
        ensures
            op == self.write_op(ListenerParam::Gain, Value::Float(value)),
    {
        self.set(ListenerParam::Gain, Value::Float(value))
    }

    pub fn position(&self) -> (op: Operation)
        ensures
            op == self.read_op(ListenerParam::Position),
    {
        self.get(ListenerParam::Position)
    }

    pub fn set_position(&self, value: [u32; 3]) -> (op: Operation)
        ensures
            op == self.write_op(ListenerParam::Position, Value::Float3(value)),
    {
        self.set(ListenerParam::Position, Value::Float3(value))
    }

    pub fn velocity(&self) -> (op: Operation)
        ensures
            op == self.read_op(ListenerParam::Velocity),
    {
        self.get(ListenerParam::Velocity)
    }

    pub fn set_velocity(&self, value: [u32; 3]) -> (op: Operation)
        ensures
            op == self.write_op(ListenerParam::Velocity, Value::Float3(value)),
    {
        self.set(ListenerParam::Velocity, Value::Float3(value))
    }

    pub fn orientation(&self) -> (op: Operation)
        ensures
            op == self.read_op(ListenerParam::Orientation),
    {
        self.get(ListenerParam::Orientation)
    }

    pub fn set_orientation(&self, value: Orientation) -> (op: Operation)
        ensures
            op == self.write_op(ListenerParam::Orientation, Value::Orientation(value)),
    {
        self.set(ListenerParam::Orientation, Value::Orientation(value))
    }
}

/// Writing a parameter and reading it address the same native parameter on
/// the same channel, and what the write puts on the wire the read takes for
/// the value that was written: exactly, for every shape, a float being its
/// bit pattern.
pub proof fn listener_write_then_read_round_trips(
    listener: Listener,
    param: ListenerParam,
    value: Value,
)
    requires
        param.descriptor().takes(value),
    ensures
        listener.write_op(param, value).call == (NativeCall::ListenerSet {
            param: param.descriptor().id,
            value: value.wire(),
        }),
        listener.read_op(param).call == (NativeCall::ListenerGet {
            param: param.descriptor().id,
            channel: value.wire().channel().unwrap(),
        }),
        listener.read_op(param).shape.admits(value.wire()),
        listener.read_op(param).shape.read(value.wire()) == value,
{
    crate::value::wire_round_trips(value);
}

} // verus!
