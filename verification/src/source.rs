//! Sources: the playback state machines that play buffers.

use vstd::prelude::*;
use crate::buffer::Buffer;
use crate::context::Context;
use crate::error::AllenResult;
use crate::native::{as_size, room_for, to_size, NativeCall, Raw};
use crate::operation::{Check, Operation};
use crate::properties::{SourceParam, AL_BUFFER};
use crate::registry::{delete_source_op, placed, NameRecord, Registry};
use crate::state::{SourceCommand, SourceState};
use crate::value::{Shape, Value};

verus! {

/// A source. A source cannot be duplicated: one value of this type governs
/// one native source. It keeps its context alive until it is given back with
/// [`Source::release`].
///
/// Beside the native name, a source keeps what this layer knows of the
/// native source from the operations that went through it: the state it was
/// last put in or seen in, the buffer bound to it, and the queue of buffers
/// that it streams from. None of these changes when an operation is planned;
/// each changes when the outcome of the operation is recorded, and only if
/// that outcome is a success.
#[derive(Debug, PartialEq, Eq)]
pub struct Source {
    pub(crate) slot: usize,
    pub(crate) handle: u32,
    pub(crate) context: u64,
    pub(crate) state: SourceState,
    pub(crate) bound: Option<u32>,
    pub(crate) queue: Vec<u32>,
}

/// The native names of the buffers, in order.
pub open spec fn names_of(buffers: Seq<&Buffer>) -> Seq<u32> {
    Seq::new(buffers.len(), |i: int| buffers[i].spec_handle())
}

/// A buffer's name as the integer channel carries it: the same 32 bits,
/// read as a signed integer.
pub open spec fn name_as_int(name: u32) -> i32 {
    if name <= 0x7fff_ffff {
        name as i32
    } else {
        (name - 0x1_0000_0000) as i32
    }
}

/// Puts a buffer's name in the form in which the integer channel carries it.
pub fn name_to_int(name: u32) -> (signed: i32)
    ensures
        signed == name_as_int(name),
{
    if name <= 0x7fff_ffff {
        name as i32
    } else {
        let low: u32 = name - 0x8000_0000;
        (low as i32) + i32::MIN
    }
}

impl Registry {
    /// The distance model of the context that owns the source in `slot`.
    pub open spec fn model_of(self, slot: int) -> crate::state::DistanceModel {
        self.contexts()[self.sources()[slot].unwrap().context as int].unwrap().distance_model
    }

    /// Whether a source with this name is on record in the context.
    pub fn has_source(&self, context: &Context, handle: u32) -> (found: bool)
        ensures
            found == self.knows_source(context.slot() as int, handle),
    {
        let mut i: usize = 0;
        while i < self.sources.len()
            invariant
                i <= self.sources.len(),
                forall|j: int|
                    0 <= j < i && (#[trigger] self.sources()[j]) is Some ==> !(
                    self.sources()[j].unwrap().handle == handle
                        && self.sources()[j].unwrap().context == context.slot()),
            decreases self.sources.len() - i,
        {
            match self.sources[i] {
                Some(record) => {
                    if record.handle == handle && record.context == context.slot {
                        return true;
                    }
                },
                None => {},
            }
            i += 1;
        }
        false
    }

    /// Whether `source` is a source that this registry records.
    pub fn holds_source(&self, source: &Source) -> (held: bool)
        ensures
            held == self.owns_source(*source),
    {
        if source.slot < self.sources.len() {
            match self.sources[source.slot] {
                Some(record) => {
                    if record.handle == source.handle && record.context < self.contexts.len() {
                        match self.contexts[record.context] {
                            Some(owner) => owner.handle == source.context,
                            None => false,
                        }
                    } else {
                        false
                    }
                },
                None => false,
            }
        } else {
            false
        }
    }

    /// Whether `source` is a source that this registry records.
    pub open spec fn owns_source(self, source: Source) -> bool {
        &&& 0 <= source.slot() < self.sources().len()
        &&& self.sources()[source.slot() as int] matches Some(record)
        &&& record.handle == source.spec_handle()
        &&& self.context_live(record.context as int)
        &&& self.contexts()[record.context as int].unwrap().handle == source.spec_context()
    }
}

impl Source {
    /// The registry slot of the source.
    pub open(crate) spec fn slot(self) -> usize {
        self.slot
    }

    /// The native name of the source.
    pub open(crate) spec fn spec_handle(self) -> u32 {
        self.handle
    }

    /// The native handle of the context that owns the source.
    pub open(crate) spec fn spec_context(self) -> u64 {
        self.context
    }

    /// The state that the source was last put in or seen in.
    pub open(crate) spec fn known_state(self) -> SourceState {
        self.state
    }

    /// The name of the buffer bound to the source, if one is.
    pub open(crate) spec fn known_bound(self) -> Option<u32> {
        self.bound
    }

    /// The names of the buffers in the source's queue, front first.
    pub open(crate) spec fn known_queue(self) -> Seq<u32> {
        self.queue@
    }

    /// The queue once the outcome of unqueueing `count` buffers is known.
    pub open spec fn queue_after(self, count: i32, outcome: AllenResult<Value>) -> Seq<u32> {
        if outcome is Err || count < 0 {
            self.known_queue()
        } else if count <= self.known_queue().len() {
            self.known_queue().skip(count as int)
        } else {
            Seq::empty()
        }
    }

    /// Whether `post` is the same source as this one.
    pub open spec fn same_source(self, post: Source) -> bool {
        &&& post.slot() == self.slot()
        &&& post.spec_handle() == self.spec_handle()
        &&& post.spec_context() == self.spec_context()
    }

    /// An operation that runs under the currency of the source's context,
    /// is not gated, has no answer, and is followed by the error query.
    pub open spec fn command(self, call: NativeCall) -> Operation {
        Operation {
            context: Some(self.spec_context()),
            gate: None,
            setup: None,
            call,
            check: Check::Al,
            shape: Shape::Unit,
        }
    }

    /// The operation that reads a parameter of the source.
    pub open spec fn read_op(self, param: SourceParam) -> Operation {
        let descriptor = param.descriptor();
        Operation {
            context: Some(self.spec_context()),
            gate: descriptor.capability,
            setup: None,
            call: NativeCall::SourceGet {
                source: self.spec_handle(),
                param: descriptor.id,
                channel: descriptor.shape.spec_channel().unwrap(),
            },
            check: Check::Al,
            shape: descriptor.shape,
        }
    }

    /// The operation that writes a parameter of the source.
    pub open spec fn write_op(self, param: SourceParam, value: Value) -> Operation {
        let descriptor = param.descriptor();
        Operation {
            context: Some(self.spec_context()),
            gate: descriptor.capability,
            setup: None,
            call: NativeCall::SourceSet {
                source: self.spec_handle(),
                param: descriptor.id,
                value: value.wire(),
            },
            check: Check::Al,
            shape: Shape::Unit,
        }
    }

    /// Records the source that the engine generated under the name `handle`
    /// in the context. A new source is in its initial state, with no buffer
    /// bound and none queued.
    pub fn new(registry: &mut Registry, context: &Context, handle: u32) -> (source: Source)
        requires
            old(registry).wf(),
            old(registry).owns_context(*context),
            !old(registry).knows_source(context.slot() as int, handle),
        ensures
            final(registry).wf(),
            final(registry).devices() == old(registry).devices(),
            final(registry).contexts() == old(registry).contexts(),
            final(registry).buffers() == old(registry).buffers(),
            source.spec_handle() == handle,
            source.spec_context() == context.spec_handle(),
            source.known_state() == SourceState::Initial,
            source.known_bound() is None,
            source.known_queue() == Seq::<u32>::empty(),
            placed(
                old(registry).sources(),
                final(registry).sources(),
                source.slot() as int,
                NameRecord { handle, context: context.slot() },
            ),
            final(registry).owns_source(source),
    {
        let record = NameRecord { handle, context: context.slot };
        let slot = crate::registry::place(&mut registry.sources, record);
        proof {
            registry.placed_name_keeps_wf(*old(registry), slot as int, record);
        }
        Source {
            slot,
            handle,
            context: context.handle,
            state: SourceState::Initial,
            bound: None,
            queue: Vec::new(),
        }
    }

    /// Gives the source up. The plan deletes the native source under the
    /// currency of its context; if nothing else refers to that context it
    /// is destroyed next, and then its device likewise.
    pub fn release(self, registry: &mut Registry) -> (plan: Vec<Operation>)
        requires
            old(registry).wf(),
            old(registry).owns_source(self),
        ensures
            final(registry).wf(),
            final(registry).sources() == old(registry).sources().update(self.slot() as int, None),
            final(registry).buffers() == old(registry).buffers(),
            ({
                let owner = old(registry).sources()[self.slot() as int].unwrap().context as int;
                let holders = old(registry).contexts()[owner].unwrap().holders;
                &&& old(registry).cascades(owner, holders, *final(registry))
                &&& plan@ == seq![delete_source_op(self.spec_context(), self.spec_handle())]
                    + old(registry).cascade_plan(owner, holders, *final(registry))
            }),
    {
        let record = registry.sources[self.slot].unwrap();
        registry.sources.set(self.slot, None);
        let mut plan: Vec<Operation> = Vec::new();
        plan.push(
            Operation {
                context: Some(self.context),
                gate: None,
                setup: None,
                call: NativeCall::DeleteSource { source: self.handle },
                check: Check::Al,
                shape: Shape::Unit,
            },
        );
        proof {
            registry.struck_name_keeps_links(
                *old(registry),
                self.slot as int,
                record.context as int,
            );
        }
        registry.settle_context(record.context, &mut plan);
        proof {
            let owner = record.context as int;
            let holders = old(registry).contexts()[owner].unwrap().holders;
            assert(plan@ =~= seq![delete_source_op(self.spec_context(), self.spec_handle())] + old(
                registry,
            ).cascade_plan(owner, holders, *registry));
        }
        plan
    }

    pub fn handle(&self) -> (handle: u32)
        ensures
            handle == self.spec_handle(),
    {
        self.handle
    }

    /// The state that the source was last put in or seen in.
    pub fn last_state(&self) -> (state: SourceState)
        ensures
            state == self.known_state(),
    {
        self.state
    }

    /// The name of the buffer bound to the source, if one is.
    pub fn bound_buffer(&self) -> (bound: Option<u32>)
        ensures
            bound == self.known_bound(),
    {
        self.bound
    }

    /// The names of the buffers in the source's queue, front first.
    pub fn queue(&self) -> (queue: &Vec<u32>)
        ensures
            queue@ == self.known_queue(),
    {
        &self.queue
    }

    /// The operation that reads a parameter. It makes the source's context
    /// current, checks the parameter's capability if it has one, reads the
    /// parameter on the channel of its shape, and checks the error.
    pub fn get(&self, param: SourceParam) -> (op: Operation)
        ensures
            op == self.read_op(param),
    {
        let descriptor = param.describe();
        Operation {
            context: Some(self.context),
            gate: descriptor.capability,
            setup: None,
            call: NativeCall::SourceGet {
                source: self.handle,
                param: descriptor.id,
                channel: descriptor.shape.channel().unwrap(),
            },
            check: Check::Al,
            shape: descriptor.shape,
        }
    }

    /// The operation that writes a parameter. It makes the source's context
    /// current, checks the parameter's capability if it has one, writes the
    /// value in its wire form, and checks the error.
    pub fn set(&self, param: SourceParam, value: Value) -> (op: Operation)
        requires
            param.descriptor().takes(value),
        ensures
            op == self.write_op(param, value),
    {
        let descriptor = param.describe();
        Operation {
            context: Some(self.context),
            gate: descriptor.capability,
            setup: None,
            call: NativeCall::SourceSet {
                source: self.handle,
                param: descriptor.id,
                value: value.encode(),
            },
            check: Check::Al,
            shape: Shape::Unit,
        }
    }

    /// The operation that binds one buffer to the source, or unbinds the
    /// one that is bound.
    pub fn set_buffer(&self, buffer: Option<&Buffer>) -> (op: Operation)
        ensures
            op == self.command(
                NativeCall::SourceSet {
                    source: self.spec_handle(),
                    param: AL_BUFFER,
                    value: Raw::Int(
                        match buffer {
                            Some(bound) => name_as_int(bound.spec_handle()),
                            None => 0,
                        },
                    ),
                },
            ),
    {
        let name: i32 = match buffer {
            Some(bound) => name_to_int(bound.handle()),
            None => 0,
        };
        self.run(
            NativeCall::SourceSet { source: self.handle, param: AL_BUFFER, value: Raw::Int(name) },
        )
    }

    /// The operation that starts the source. It first selects the distance
    /// model of the source's context.
    pub fn play(&self, registry: &Registry) -> (op: Operation)
        requires
            registry.owns_source(*self),
        ensures
            op == (Operation {
                context: Some(self.spec_context()),
                gate: None,
                setup: Some(
                    NativeCall::DistanceModel {
                        model: registry.model_of(self.slot() as int).code(),
                    },
                ),
                call: NativeCall::SourcePlay { source: self.spec_handle() },
                check: Check::Al,
                shape: Shape::Unit,
            }),
    {
        let record = registry.sources[self.slot].unwrap();
        proof {
            assert(registry.context_live(record.context as int));
        }
        let model = registry.contexts[record.context].unwrap().distance_model;
        Operation {
            context: Some(self.context),
            gate: None,
            setup: Some(NativeCall::DistanceModel { model: model.to_i32() }),
            call: NativeCall::SourcePlay { source: self.handle },
            check: Check::Al,
            shape: Shape::Unit,
        }
    }

    /// The operation that pauses the source.
    pub fn pause(&self) -> (op: Operation)
        ensures
            op == self.command(NativeCall::SourcePause { source: self.spec_handle() }),
    {
        self.run(NativeCall::SourcePause { source: self.handle })
    }

    /// The operation that stops the source.
    pub fn stop(&self) -> (op: Operation)
        ensures
            op == self.command(NativeCall::SourceStop { source: self.spec_handle() }),
    {
        self.run(NativeCall::SourceStop { source: self.handle })
    }

    /// The operation that puts the source back in its initial state.
    pub fn rewind(&self) -> (op: Operation)
        ensures
            op == self.command(NativeCall::SourceRewind { source: self.spec_handle() }),
    {
        self.run(NativeCall::SourceRewind { source: self.handle })
    }

    /// The operation that appends the buffers to the source's queue, in
    /// order. Their number goes into the engine's 32-bit size parameter.
    pub fn queue_buffers(&self, buffers: &[&Buffer]) -> (op: Operation)
        ensures
            op.context == Some(self.spec_context()),
            op.gate is None,
            op.setup is None,
            op.call matches NativeCall::SourceQueueBuffers { source, count, buffers: names }
                && source == self.spec_handle() && count == as_size(buffers@.len())
                && names@ == names_of(buffers@),
            op.check == Check::Al,
            op.shape == Shape::Unit,
    {
        let mut names: Vec<u32> = Vec::new();
        let mut i: usize = 0;
        while i < buffers.len()
            invariant
                i <= buffers.len(),
                names@ == names_of(buffers@.take(i as int)),
            decreases buffers.len() - i,
        {
            names.push(buffers[i].handle());
            proof {
                assert(names@ =~= names_of(buffers@.take(i as int + 1)));
            }
            i += 1;
        }
        proof {
            assert(buffers@.take(buffers.len() as int) =~= buffers@);
        }
        self.run(
            NativeCall::SourceQueueBuffers {
                source: self.handle,
                count: to_size(names.len()),
                buffers: names,
            },
        )
    }

    /// The operation that appends one buffer to the source's queue.
    pub fn queue_buffer(&self, buffer: &Buffer) -> (op: Operation)
        ensures
            op.context == Some(self.spec_context()),
            op.gate is None,
            op.setup is None,
            op.call matches NativeCall::SourceQueueBuffers { source, count, buffers: names }
                && source == self.spec_handle() && count == 1 && names@ == seq![
                buffer.spec_handle(),
            ],
            op.check == Check::Al,
            op.shape == Shape::Unit,
    {
        let mut names: Vec<u32> = Vec::new();
        names.push(buffer.handle());
        self.run(NativeCall::SourceQueueBuffers { source: self.handle, count: 1, buffers: names })
    }

    /// The operation that removes `count` buffers from the front of the
    /// source's queue. The engine lets it succeed only if that many buffers
    /// have been played. The call is planned for every count: a count that
    /// the engine cannot honour, a negative one too, ends in the engine's
    /// error.
    pub fn unqueue_buffers(&self, count: i32) -> (op: Operation)
        ensures
            op == self.command(
                NativeCall::SourceUnqueueBuffers {
                    source: self.spec_handle(),
                    count,
                    room: room_for(count),
                },
            ),
    {
        let room: usize = if count > 0 {
            count as usize
        } else {
            0
        };
        self.run(NativeCall::SourceUnqueueBuffers { source: self.handle, count, room })
    }

    fn run(&self, call: NativeCall) -> (op: Operation)
        ensures
            op == self.command(call),
    {
        Operation {
            context: Some(self.context),
            gate: None,
            setup: None,
            call,
            check: Check::Al,
            shape: Shape::Unit,
        }
    }

    /// Records the outcome of `play`, `pause`, `stop` or `rewind`. A command
    /// that succeeded moves the source to the next state; one that failed
    /// leaves it where it was.
    pub fn record_command(&mut self, command: SourceCommand, outcome: &AllenResult<Value>)
        ensures
            old(self).same_source(*final(self)),
            final(self).known_bound() == old(self).known_bound(),
            final(self).known_queue() == old(self).known_queue(),
            outcome is Ok ==> final(self).known_state() == old(self).known_state().next(command),
            outcome is Err ==> final(self).known_state() == old(self).known_state(),
    {
        if outcome.is_ok() {
            self.state = self.state.after(command);
        }
    }

    /// Records the outcome of reading the source's state.
    pub fn record_state(&mut self, outcome: &AllenResult<Value>)
        ensures
            old(self).same_source(*final(self)),
            final(self).known_bound() == old(self).known_bound(),
            final(self).known_queue() == old(self).known_queue(),
            final(self).known_state() == match *outcome {
                Ok(Value::State(seen)) => seen,
                _ => old(self).known_state(),
            },
    {
        match outcome {
            Ok(Value::State(seen)) => {
                self.state = *seen;
            },
            _ => {},
        }
    }

    /// Records the outcome of writing the source's state. On success the
    /// source is in the state that was written; on failure nothing changes.
    pub fn record_state_written(&mut self, written: SourceState, outcome: &AllenResult<Value>)
        ensures
            old(self).same_source(*final(self)),
            final(self).known_bound() == old(self).known_bound(),
            final(self).known_queue() == old(self).known_queue(),
            outcome is Ok ==> final(self).known_state() == written,
            outcome is Err ==> final(self).known_state() == old(self).known_state(),
    {
        if outcome.is_ok() {
            self.state = written;
        }
    }

    /// Records the outcome of `set_buffer`. On success the source has that
    /// buffer bound, or none; on failure nothing changes.
    pub fn record_bound(&mut self, buffer: Option<&Buffer>, outcome: &AllenResult<Value>)
        ensures
            old(self).same_source(*final(self)),
            final(self).known_state() == old(self).known_state(),
            final(self).known_queue() == old(self).known_queue(),
            outcome is Ok ==> final(self).known_bound() == match buffer {
                Some(bound) => Some(bound.spec_handle()),
                None => None,
            },
            outcome is Err ==> final(self).known_bound() == old(self).known_bound(),
    {
        if outcome.is_ok() {
            self.bound = match buffer {
                Some(bound) => Some(bound.handle()),
                None => None,
            };
        }
    }

    /// Records the outcome of `queue_buffers` or `queue_buffer`. On success
    /// the buffers are at the back of the queue, in order; on failure the
    /// queue is unchanged.
    pub fn record_queued(&mut self, buffers: &[&Buffer], outcome: &AllenResult<Value>)
        ensures
            old(self).same_source(*final(self)),
            final(self).known_state() == old(self).known_state(),
            final(self).known_bound() == old(self).known_bound(),
            outcome is Ok ==> final(self).known_queue() == old(self).known_queue() + names_of(
                buffers@,
            ),
            outcome is Err ==> final(self).known_queue() == old(self).known_queue(),
    {
        if outcome.is_ok() {
            let mut i: usize = 0;
            while i < buffers.len()
                invariant
                    i <= buffers.len(),
                    old(self).same_source(*self),
                    self.known_state() == old(self).known_state(),
                    self.known_bound() == old(self).known_bound(),
                    self.known_queue() == old(self).known_queue() + names_of(
                        buffers@.take(i as int),
                    ),
                decreases buffers.len() - i,
            {
                self.queue.push(buffers[i].handle());
                proof {
                    assert(self.known_queue() =~= old(self).known_queue() + names_of(
                        buffers@.take(i as int + 1),
                    ));
                }
                i += 1;
            }
            proof {
                assert(buffers@.take(buffers.len() as int) =~= buffers@);
            }
        }
    }

    /// Records the outcome of `unqueue_buffers`. On success exactly the
    /// first `count` buffers have left the queue, or all of them if the
    /// queue was known to hold fewer; on failure the queue is unchanged, and
    /// so it is whatever the outcome if `count` is negative.
    pub fn record_unqueued(&mut self, count: i32, outcome: &AllenResult<Value>)
        ensures
            old(self).same_source(*final(self)),
            final(self).known_state() == old(self).known_state(),
            final(self).known_bound() == old(self).known_bound(),
            final(self).known_queue() == old(self).queue_after(count, *outcome),
    {
        if outcome.is_ok() && count >= 0 {
            let gone = count as usize;
            if gone <= self.queue.len() {
                let rest = self.queue.split_off(gone);
                self.queue = rest;
                proof {
                    assert(self.known_queue() =~= old(self).known_queue().skip(count as int));
                }
            } else {
                self.queue.clear();
                proof {
                    assert(self.known_queue() =~= Seq::<u32>::empty());
                }
            }
        }
    }
}

/// One accessor for each parameter of the table. A getter's outcome is
/// a value of the parameter's shape; a float is given and taken as its bit
/// pattern.
impl Source {
    pub fn pitch(&self) -> (op: Operation)
        ensures
            op == self.read_op(SourceParam::Pitch),
    {
        self.get(SourceParam::Pitch)
    }

    pub fn set_pitch(&self, value: u32) -> (op: Operation)
        ensures
            op == self.write_op(SourceParam::Pitch, Value::Float(value)),
    {
        self.set(SourceParam::Pitch, Value::Float(value))
    }

    pub fn gain(&self) -> (op: Operation)
        ensures
            op == self.read_op(SourceParam::Gain),
    {
        self.get(SourceParam::Gain)
    }

    pub fn set_gain(&self, value: u32) -> (op: Operation)
        ensures
            op == self.write_op(SourceParam::Gain, Value::Float(value)),
    {
        self.set(SourceParam::Gain, Value::Float(value))
    }

    pub fn min_gain(&self) -> (op: Operation)
        ensures
            op == self.read_op(SourceParam::MinGain),
    {
        self.get(SourceParam::MinGain)
    }

    pub fn set_min_gain(&self, value: u32) -> (op: Operation)
        ensures
            op == self.write_op(SourceParam::MinGain, Value::Float(value)),
    {
        self.set(SourceParam::MinGain, Value::Float(value))
    }

    pub fn max_gain(&self) -> (op: Operation)
        ensures
            op == self.read_op(SourceParam::MaxGain),
    {
        self.get(SourceParam::MaxGain)
    }

    pub fn set_max_gain(&self, value: u32) -> (op: Operation)
        ensures
            op == self.write_op(SourceParam::MaxGain, Value::Float(value)),
    {
        self.set(SourceParam::MaxGain, Value::Float(value))
    }

    pub fn max_distance(&self) -> (op: Operation)
        ensures
            op == self.read_op(SourceParam::MaxDistance),
    {
        self.get(SourceParam::MaxDistance)
    }

    pub fn set_max_distance(&self, value: u32) -> (op: Operation)
        ensures
            op == self.write_op(SourceParam::MaxDistance, Value::Float(value)),
    {
        self.set(SourceParam::MaxDistance, Value::Float(value))
    }

    pub fn rolloff_factor(&self) -> (op: Operation)
        ensures
            op == self.read_op(SourceParam::RolloffFactor),
    {
        self.get(SourceParam::RolloffFactor)
    }

    pub fn set_rolloff_factor(&self, value: u32) -> (op: Operation)
        ensures
            op == self.write_op(SourceParam::RolloffFactor, Value::Float(value)),
    {
        self.set(SourceParam::RolloffFactor, Value::Float(value))
    }

    pub fn reference_distance(&self) -> (op: Operation)
        ensures
            op == self.read_op(SourceParam::ReferenceDistance),
    {
        self.get(SourceParam::ReferenceDistance)
    }

    pub fn set_reference_distance(&self, value: u32) -> (op: Operation)
        ensures
            op == self.write_op(SourceParam::ReferenceDistance, Value::Float(value)),
    {
        self.set(SourceParam::ReferenceDistance, Value::Float(value))
    }

    pub fn cone_outer_gain(&self) -> (op: Operation)
        ensures
            op == self.read_op(SourceParam::ConeOuterGain),
    {
        self.get(SourceParam::ConeOuterGain)
    }

    pub fn set_cone_outer_gain(&self, value: u32) -> (op: Operation)
        ensures
            op == self.write_op(SourceParam::ConeOuterGain, Value::Float(value)),
    {
        self.set(SourceParam::ConeOuterGain, Value::Float(value))
    }

    pub fn cone_inner_angle(&self) -> (op: Operation)
        ensures
            op == self.read_op(SourceParam::ConeInnerAngle),
    {
        self.get(SourceParam::ConeInnerAngle)
    }

    pub fn set_cone_inner_angle(&self, value: u32) -> (op: Operation)
        ensures
            op == self.write_op(SourceParam::ConeInnerAngle, Value::Float(value)),
    {
        self.set(SourceParam::ConeInnerAngle, Value::Float(value))
    }

    pub fn cone_outer_angle(&self) -> (op: Operation)
        ensures
            op == self.read_op(SourceParam::ConeOuterAngle),
    {
        self.get(SourceParam::ConeOuterAngle)
    }

    pub fn set_cone_outer_angle(&self, value: u32) -> (op: Operation)
        ensures
            op == self.write_op(SourceParam::ConeOuterAngle, Value::Float(value)),
    {
        self.set(SourceParam::ConeOuterAngle, Value::Float(value))
    }

    pub fn time_in_secs(&self) -> (op: Operation)
        ensures
            op == self.read_op(SourceParam::PlaybackTimeSecs),
    {
        self.get(SourceParam::PlaybackTimeSecs)
    }

    pub fn set_time_in_secs(&self, value: u32) -> (op: Operation)
        ensures
            op == self.write_op(SourceParam::PlaybackTimeSecs, Value::Float(value)),
    {
        self.set(SourceParam::PlaybackTimeSecs, Value::Float(value))
    }

    pub fn time_in_samples(&self) -> (op: Operation)
        ensures
            op == self.read_op(SourceParam::PlaybackTimeSamples),
    {
        self.get(SourceParam::PlaybackTimeSamples)
    }

    pub fn set_time_in_samples(&self, value: i32) -> (op: Operation)
        ensures
            op == self.write_op(SourceParam::PlaybackTimeSamples, Value::Int(value)),
    {
        self.set(SourceParam::PlaybackTimeSamples, Value::Int(value))
    }

    pub fn time_in_bytes(&self) -> (op: Operation)
        ensures
            op == self.read_op(SourceParam::PlaybackTimeBytes),
    {
        self.get(SourceParam::PlaybackTimeBytes)
    }

    pub fn set_time_in_bytes(&self, value: i32) -> (op: Operation)
        ensures
            op == self.write_op(SourceParam::PlaybackTimeBytes, Value::Int(value)),
    {
        self.set(SourceParam::PlaybackTimeBytes, Value::Int(value))
    }

    pub fn position(&self) -> (op: Operation)
        ensures
            op == self.read_op(SourceParam::Position),
    {
        self.get(SourceParam::Position)
    }

    pub fn set_position(&self, value: [u32; 3]) -> (op: Operation)
        ensures
            op == self.write_op(SourceParam::Position, Value::Float3(value)),
    {
        self.set(SourceParam::Position, Value::Float3(value))
    }

    pub fn velocity(&self) -> (op: Operation)
        ensures
            op == self.read_op(SourceParam::Velocity),
    {
        self.get(SourceParam::Velocity)
    }

    pub fn set_velocity(&self, value: [u32; 3]) -> (op: Operation)
        ensures
            op == self.write_op(SourceParam::Velocity, Value::Float3(value)),
    {
        self.set(SourceParam::Velocity, Value::Float3(value))
    }

    pub fn direction(&self) -> (op: Operation)
        ensures
            op == self.read_op(SourceParam::Direction),
    {
        self.get(SourceParam::Direction)
    }

    pub fn set_direction(&self, value: [u32; 3]) -> (op: Operation)
        ensures
            op == self.write_op(SourceParam::Direction, Value::Float3(value)),
    {
        self.set(SourceParam::Direction, Value::Float3(value))
    }

    pub fn is_looping(&self) -> (op: Operation)
        ensures
            op == self.read_op(SourceParam::IsLooping),
    {
        self.get(SourceParam::IsLooping)
    }

    pub fn set_looping(&self, value: bool) -> (op: Operation)
        ensures
            op == self.write_op(SourceParam::IsLooping, Value::Bool(value)),
    {
        self.set(SourceParam::IsLooping, Value::Bool(value))
    }

    pub fn is_relative(&self) -> (op: Operation)
        ensures
            op == self.read_op(SourceParam::IsRelative),
    {
        self.get(SourceParam::IsRelative)
    }

    pub fn set_relative(&self, value: bool) -> (op: Operation)
        ensures
            op == self.write_op(SourceParam::IsRelative, Value::Bool(value)),
    {
        self.set(SourceParam::IsRelative, Value::Bool(value))
    }

    pub fn state(&self) -> (op: Operation)
        ensures
            op == self.read_op(SourceParam::State),
    {
        self.get(SourceParam::State)
    }

    pub fn set_state(&self, value: SourceState) -> (op: Operation)
        ensures
            op == self.write_op(SourceParam::State, Value::State(value)),
    {
        self.set(SourceParam::State, Value::State(value))
    }

    pub fn length_in_secs(&self) -> (op: Operation)
        ensures
            op == self.read_op(SourceParam::LengthSecs),
    {
        self.get(SourceParam::LengthSecs)
    }

    pub fn length_in_samples(&self) -> (op: Operation)
        ensures
            op == self.read_op(SourceParam::LengthSamples),
    {
        self.get(SourceParam::LengthSamples)
    }

    pub fn length_in_bytes(&self) -> (op: Operation)
        ensures
            op == self.read_op(SourceParam::LengthBytes),
    {
        self.get(SourceParam::LengthBytes)
    }

    pub fn source_radius(&self) -> (op: Operation)
        ensures
            op == self.read_op(SourceParam::SourceRadius),
    {
        self.get(SourceParam::SourceRadius)
    }

    pub fn set_source_radius(&self, value: u32) -> (op: Operation)
        ensures
            op == self.write_op(SourceParam::SourceRadius, Value::Float(value)),
    {
        self.set(SourceParam::SourceRadius, Value::Float(value))
    }

    pub fn buffers_queued(&self) -> (op: Operation)
        ensures
            op == self.read_op(SourceParam::BuffersQueued),
    {
        self.get(SourceParam::BuffersQueued)
    }

    pub fn buffers_processed(&self) -> (op: Operation)
        ensures
            op == self.read_op(SourceParam::BuffersProcessed),
    {
        self.get(SourceParam::BuffersProcessed)
    }
}

/// Writing a parameter and reading it address the same native parameter on
/// the same channel, and what the write puts on the wire the read takes for
/// the value that was written: exactly, for every shape, a float being its
/// bit pattern.
pub proof fn source_write_then_read_round_trips(source: Source, param: SourceParam, value: Value)
    requires
        param.descriptor().takes(value),
    ensures
        source.write_op(param, value).call == (NativeCall::SourceSet {
            source: source.spec_handle(),
            param: param.descriptor().id,
            value: value.wire(),
        }),
        source.read_op(param).call == (NativeCall::SourceGet {
            source: source.spec_handle(),
            param: param.descriptor().id,
            channel: value.wire().channel().unwrap(),
        }),
        source.read_op(param).shape.admits(value.wire()),
        source.read_op(param).shape.read(value.wire()) == value,
{
    crate::value::wire_round_trips(value);
}

} // verus!
