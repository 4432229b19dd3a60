//! Buffers of audio samples.

use vstd::prelude::*;
use crate::extension::Capability;
use crate::native::{as_size, wide_to_size, NativeCall};
use crate::context::Context;
use crate::operation::{Check, Operation};
use crate::registry::{delete_buffer_op, placed, NameRecord, Registry};
use crate::value::Shape;

verus! {

pub const AL_FORMAT_MONO8: i32 = 0x1100;

pub const AL_FORMAT_MONO16: i32 = 0x1101;

pub const AL_FORMAT_STEREO8: i32 = 0x1102;

pub const AL_FORMAT_STEREO16: i32 = 0x1103;

pub const AL_FORMAT_MONO_FLOAT32: i32 = 0x10010;

pub const AL_FORMAT_STEREO_FLOAT32: i32 = 0x10011;

pub const AL_FORMAT_MONO_DOUBLE_EXT: i32 = 0x10012;

pub const AL_FORMAT_STEREO_DOUBLE_EXT: i32 = 0x10013;

#[derive(Debug, Clone, Copy, PartialEq, Eq, Structural)]
pub enum Channels {
    /// One audio channel.
    Mono,
    /// Two audio channels: one left, one right.
    Stereo,
}

/// A payload of samples, described by the type of its elements and their
/// number. The samples themselves never pass through this layer.
#[derive(Debug, Clone, Copy, PartialEq, Eq, Structural)]
pub enum BufferData {
    /// That many 8-bit integer samples.
    I8(usize),
    /// That many 16-bit integer samples.
    I16(usize),
    /// That many 32-bit floating-point samples.
    F32(usize),
    /// That many 64-bit floating-point samples.
    F64(usize),
}

impl BufferData {
    /// The size of the payload, in bytes: the width of a sample times the
    /// number of samples.
    pub open spec fn spec_size(self) -> nat {
        match self {
            BufferData::I8(n) => n as nat,
            BufferData::I16(n) => 2 * (n as nat),
            BufferData::F32(n) => 4 * (n as nat),
            BufferData::F64(n) => 8 * (n as nat),
        }
    }

    /// The capability that the engine needs for this type of sample.
    pub open spec fn spec_capability(self) -> Option<Capability> {
        match self {
            BufferData::I8(_) | BufferData::I16(_) => None,
            BufferData::F32(_) => Some(Capability::Float32),
            BufferData::F64(_) => Some(Capability::Double),
        }
    }

    /// The native format code: the sample type crossed with the channel
    /// layout.
    pub open spec fn spec_format(self, channels: Channels) -> i32 {
        match (self, channels) {
            (BufferData::I8(_), Channels::Mono) => AL_FORMAT_MONO8,
            (BufferData::I8(_), Channels::Stereo) => AL_FORMAT_STEREO8,
            (BufferData::I16(_), Channels::Mono) => AL_FORMAT_MONO16,
            (BufferData::I16(_), Channels::Stereo) => AL_FORMAT_STEREO16,
            (BufferData::F32(_), Channels::Mono) => AL_FORMAT_MONO_FLOAT32,
            (BufferData::F32(_), Channels::Stereo) => AL_FORMAT_STEREO_FLOAT32,
            (BufferData::F64(_), Channels::Mono) => AL_FORMAT_MONO_DOUBLE_EXT,
            (BufferData::F64(_), Channels::Stereo) => AL_FORMAT_STEREO_DOUBLE_EXT,
        }
    }

    /// The size of the payload in bytes, if there can be a payload of
    /// that size at all.
    pub fn size(&self) -> (size: Option<usize>)
        ensures
            self.spec_size() <= usize::MAX ==> size == Some(self.spec_size() as usize),
            self.spec_size() > usize::MAX ==> size is None,
    {
        let (width, count): (usize, usize) = match self {
            BufferData::I8(n) => (1, *n),
            BufferData::I16(n) => (2, *n),
            BufferData::F32(n) => (4, *n),
            BufferData::F64(n) => (8, *n),
        };
        let limit: usize = usize::MAX;
        if count <= limit / width {
            assert(width * count <= limit) by (nonlinear_arith)
                requires
                    1 <= width <= 8,
                    count <= limit / width,
            ;
            Some(width * count)
        } else {
            assert(width * count > limit) by (nonlinear_arith)
                requires
                    1 <= width <= 8,
                    count > limit / width,
            ;
            None
        }
    }

    pub fn capability(&self) -> (capability: Option<Capability>)
        ensures
            capability == self.spec_capability(),
    {
        match self {
            BufferData::I8(_) | BufferData::I16(_) => None,
            BufferData::F32(_) => Some(Capability::Float32),
            BufferData::F64(_) => Some(Capability::Double),
        }
    }

    pub fn format(&self, channels: Channels) -> (format: i32)
        ensures
            format == self.spec_format(channels),
    {
        match self {
            BufferData::I8(_) => match channels {
                Channels::Mono => AL_FORMAT_MONO8,
                Channels::Stereo => AL_FORMAT_STEREO8,
            },
            BufferData::I16(_) => match channels {
                Channels::Mono => AL_FORMAT_MONO16,
                Channels::Stereo => AL_FORMAT_STEREO16,
            },
            BufferData::F32(_) => match channels {
                Channels::Mono => AL_FORMAT_MONO_FLOAT32,
                Channels::Stereo => AL_FORMAT_STEREO_FLOAT32,
            },
            BufferData::F64(_) => match channels {
                Channels::Mono => AL_FORMAT_MONO_DOUBLE_EXT,
                Channels::Stereo => AL_FORMAT_STEREO_DOUBLE_EXT,
            },
        }
    }
}

/// A buffer of audio data. A buffer cannot be duplicated: one value of this
/// type governs one native buffer. It keeps its context alive until it is
/// given back with [`Buffer::release`].
#[derive(Debug, PartialEq, Eq)]
pub struct Buffer {
    pub(crate) slot: usize,
    pub(crate) handle: u32,
    pub(crate) context: u64,
}

impl Registry {
    /// Whether a buffer with this name is on record on the device of the
    /// context.
    pub fn has_buffer(&self, context: &Context, handle: u32) -> (found: bool)
        requires
            self.wf(),
            self.owns_context(*context),
        ensures
            found == self.knows_buffer(self.device_under(context.slot() as int), handle),
    {
        let device = self.contexts[context.slot].unwrap().device;
        let mut i: usize = 0;
        while i < self.buffers.len()
            invariant
                i <= self.buffers.len(),
                self.wf(),
                device == self.device_under(context.slot() as int),
                forall|j: int|
                    0 <= j < i && (#[trigger] self.buffers()[j]) is Some ==> !(
                    self.buffers()[j].unwrap().handle == handle && self.buffer_device(j)
                        == device),
            decreases self.buffers.len() - i,
        {
            match self.buffers[i] {
                Some(record) => {
                    proof {
                        assert(self.context_live(record.context as int));
                    }
                    if record.handle == handle && self.contexts[record.context].unwrap().device
                        == device {
                        return true;
                    }
                },
                None => {},
            }
            i += 1;
        }
        false
    }

    /// Whether `buffer` is a buffer that this registry records.
    pub fn holds_buffer(&self, buffer: &Buffer) -> (held: bool)
        ensures
            held == self.owns_buffer(*buffer),
    {
        if buffer.slot < self.buffers.len() {
            match self.buffers[buffer.slot] {
                Some(record) => {
                    if record.handle == buffer.handle && record.context < self.contexts.len() {
                        match self.contexts[record.context] {
                            Some(owner) => owner.handle == buffer.context,
                            None => false,
                        }
                    } else {
                        false
                    }
                },
                None => false,
            }
        } else {
            false
        }
    }

    /// Whether `buffer` is a buffer that this registry records.
    pub open spec fn owns_buffer(self, buffer: Buffer) -> bool {
        &&& 0 <= buffer.slot() < self.buffers().len()
        &&& self.buffers()[buffer.slot() as int] matches Some(record)
        &&& record.handle == buffer.spec_handle()
        &&& self.context_live(record.context as int)
        &&& self.contexts()[record.context as int].unwrap().handle == buffer.spec_context()
    }
}

impl Buffer {
    /// The registry slot of the buffer.
    pub open(crate) spec fn slot(self) -> usize {
        self.slot
    }

    /// Records the buffer that the engine generated under the name `handle`
    /// in the context.
    pub fn new(registry: &mut Registry, context: &Context, handle: u32) -> (buffer: Buffer)
        requires
            old(registry).wf(),
            old(registry).owns_context(*context),
            !old(registry).knows_buffer(
                old(registry).device_under(context.slot() as int),
                handle,
            ),
        ensures
            final(registry).wf(),
            final(registry).devices() == old(registry).devices(),
            final(registry).contexts() == old(registry).contexts(),
            final(registry).sources() == old(registry).sources(),
            buffer.spec_handle() == handle,
            buffer.spec_context() == context.spec_handle(),
            placed(
                old(registry).buffers(),
                final(registry).buffers(),
                buffer.slot() as int,
                NameRecord { handle, context: context.slot() },
            ),
            final(registry).owns_buffer(buffer),
    {
        let record = NameRecord { handle, context: context.slot };
        let slot = crate::registry::place(&mut registry.buffers, record);
        proof {
            registry.placed_name_keeps_wf(*old(registry), slot as int, record);
        }
        Buffer { slot, handle, context: context.handle }
    }

    /// Gives the buffer up. The plan deletes the native buffer under the
    /// currency of its context; if nothing else refers to that context it
    /// is destroyed next, and then its device likewise.
    pub fn release(self, registry: &mut Registry) -> (plan: Vec<Operation>)
        requires
            old(registry).wf(),
            old(registry).owns_buffer(self),
        ensures
            final(registry).wf(),
            final(registry).buffers() == old(registry).buffers().update(self.slot() as int, None),
            final(registry).sources() == old(registry).sources(),
            ({
                let owner = old(registry).buffers()[self.slot() as int].unwrap().context as int;
                let holders = old(registry).contexts()[owner].unwrap().holders;
                &&& old(registry).cascades(owner, holders, *final(registry))
                &&& plan@ == seq![delete_buffer_op(self.spec_context(), self.spec_handle())]
                    + old(registry).cascade_plan(owner, holders, *final(registry))
            }),
    {
        let record = registry.buffers[self.slot].unwrap();
        registry.buffers.set(self.slot, None);
        let mut plan: Vec<Operation> = Vec::new();
        plan.push(
            Operation {
                context: Some(self.context),
                gate: None,
                setup: None,
                call: NativeCall::DeleteBuffer { buffer: self.handle },
                check: Check::Al,
                shape: Shape::Unit,
            },
        );
        proof {
            registry.struck_name_keeps_links(
                *old(registry),
                self.slot as int,
                record.context as int,
            );
        }
        registry.settle_context(record.context, &mut plan);
        proof {
            let owner = record.context as int;
            let holders = old(registry).contexts()[owner].unwrap().holders;
            assert(plan@ =~= seq![delete_buffer_op(self.spec_context(), self.spec_handle())] + old(
                registry,
            ).cascade_plan(owner, holders, *registry));
        }
        plan
    }

    /// The native name of the buffer.
    pub open(crate) spec fn spec_handle(self) -> u32 {
        self.handle
    }

    /// The native handle of the context that owns the buffer.
    pub open(crate) spec fn spec_context(self) -> u64 {
        self.context
    }

    pub fn handle(&self) -> (handle: u32)
        ensures
            handle == self.spec_handle(),
    {
        self.handle
    }

    /// Replaces the buffer's contents with the given payload.
    ///
    /// The operation makes the buffer's context current and has no preparing
    /// call: the data call is the only call of its own. A floating-point
    /// payload is gated by its capability, so that without it the operation
    /// ends in `MissingExtension` before the engine is handed any data. The
    /// size goes into the engine's 32-bit size parameter: of a payload of
    /// two gibibytes or more, the engine is told the low 32 bits of its size.
    pub fn data(&self, data: BufferData, channels: Channels, sample_rate: i32) -> (op: Operation)
        ensures
            op == (Operation {
                context: Some(self.spec_context()),
                gate: data.spec_capability(),
                setup: None,
                call: NativeCall::BufferData {
                    buffer: self.spec_handle(),
                    format: data.spec_format(channels),
                    size: as_size(data.spec_size()),
                    sample_rate,
                },
                check: Check::Al,
                shape: Shape::Unit,
            }),
    {
        let bytes: u128 = match data {
            BufferData::I8(n) => n as u128,
            BufferData::I16(n) => 2 * (n as u128),
            BufferData::F32(n) => 4 * (n as u128),
            BufferData::F64(n) => 8 * (n as u128),
        };
        let size = wide_to_size(bytes);
        Operation {
            context: Some(self.context),
            gate: data.capability(),
            setup: None,
            call: NativeCall::BufferData {
                buffer: self.handle,
                format: data.format(channels),
                size,
                sample_rate,
            },
            check: Check::Al,
            shape: Shape::Unit,
        }
    }
}

} // verus!
