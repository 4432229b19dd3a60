//! Optional capabilities of the engine, and the presence check that gates
//! the operations depending on them.

use vstd::prelude::*;
use crate::error::{AllenError, AllenResult};
use crate::native::{NativeCall, Raw};
use crate::operation::{Check, Operation};
use crate::transaction::{Action, Event, Phase, Transaction};
use crate::value::{Shape, Value};

verus! {

/// The capabilities that gate operations of this layer.
#[derive(Debug, Clone, Copy, PartialEq, Eq, Structural)]
pub enum Capability {
    /// Buffers of 32-bit floating-point samples.
    Float32,
    /// Buffers of 64-bit floating-point samples.
    Double,
    /// The length queries of a source.
    SourceLength,
    /// The radius of a source.
    SourceRadius,
}

impl Capability {
    /// The name under which the engine is asked for this capability.
    pub open spec fn spec_name(self) -> Seq<char> {
        match self {
            Capability::Float32 => "AL_EXT_float32"@,
            Capability::Double => "AL_double"@,
            Capability::SourceLength => "AL_SOFT_source_length"@,
            Capability::SourceRadius => "AL_EXT_SOURCE_RADIUS"@,
        }
    }

    pub fn name(&self) -> (name: &'static str)
        ensures
            name@ == self.spec_name(),
    {
        match self {
            Capability::Float32 => "AL_EXT_float32",
            Capability::Double => "AL_double",
            Capability::SourceLength => "AL_SOFT_source_length",
            Capability::SourceRadius => "AL_EXT_SOURCE_RADIUS",
        }
    }
}

/// Whether `result` is what a presence check on `name` yields when the
/// presence query itself came out as `present`.
pub open spec fn gate_outcome(name: Seq<char>, present: AllenResult<bool>, result: AllenResult<()>)
    -> bool {
    match present {
        Ok(true) => result is Ok,
        Ok(false) => result matches Err(AllenError::MissingExtension(missing)) && missing@ == name,
        Err(error) => result == Err::<(), AllenError>(error),
    }
}

/// Whether `op` is the context-level presence query for `name`: it needs
/// no context made current, and its answer is a native boolean, followed by
/// the context-level error query.
pub open spec fn is_presence_query(op: Operation, name: Seq<char>) -> bool {
    &&& op.context is None
    &&& op.gate is None
    &&& op.setup is None
    &&& op.call matches NativeCall::IsExtensionPresent { name: asked } && asked@ == name
    &&& op.check == Check::Al
    &&& op.shape == Shape::Flag
}

/// Whether `op` is the presence query for `name` on the device: its answer
/// is a native boolean, followed by the error query of the device.
pub open spec fn is_device_presence_query(op: Operation, device: u64, name: Seq<char>) -> bool {
    &&& op.context is None
    &&& op.gate is None
    &&& op.setup is None
    &&& op.call matches NativeCall::AlcIsExtensionPresent { device: on, name: asked } && on
        == device && asked@ == name
    &&& op.check == (Check::Alc { device })
    &&& op.shape == Shape::Flag
}

/// The context-level query for the extension `name`. Its outcome is a
/// boolean.
pub fn is_extension_present(name: &str) -> (op: Operation)
    ensures
        is_presence_query(op, name@),
{
    Operation {
        context: None,
        gate: None,
        setup: None,
        call: NativeCall::IsExtensionPresent { name: name.to_owned() },
        check: Check::Al,
        shape: Shape::Flag,
    }
}

/// Decides what the outcome of the presence query for `name` means for an
/// operation that needs the extension: an absent extension is the error
/// `MissingExtension` with that name, and a query that failed keeps its
/// error.
pub fn check_al_extension(name: &str, present: AllenResult<bool>) -> (result: AllenResult<()>)
    ensures
        gate_outcome(name@, present, result),
{
    match present {
        Ok(true) => Ok(()),
        Ok(false) => Err(AllenError::MissingExtension(name.to_owned())),
        Err(error) => Err(error),
    }
}

/// The context-level and the device-level presence query for one name agree:
/// where the engine gives both the same answer, and neither query fails,
/// both end in the same boolean, which is false for zero and true otherwise.
pub proof fn presence_queries_agree(
    name: Seq<char>,
    device: u64,
    global: Operation,
    scoped: Operation,
    answer: i8,
    global_pre: Transaction,
    global_post: Transaction,
    global_action: Action,
    scoped_pre: Transaction,
    scoped_post: Transaction,
    scoped_action: Action,
)
    requires
        is_presence_query(global, name),
        is_device_presence_query(scoped, device, name),
        global_pre.carries(global),
        scoped_pre.carries(scoped),
        global_pre.guard() is None,
        scoped_pre.guard() is None,
        global_pre.phase() == (Phase::Checking { answer: Raw::Flag(answer) }),
        scoped_pre.phase() == (Phase::Checking { answer: Raw::Flag(answer) }),
        global_pre.follows(Event::Answer(Raw::Int(0)), global_post, global_action),
        scoped_pre.follows(Event::Answer(Raw::Int(0)), scoped_post, scoped_action),
    ensures
        global_action == Action::Finish(Ok(Value::Bool(answer != 0))),
        scoped_action == Action::Finish(Ok(Value::Bool(answer != 0))),
{
}

} // verus!
