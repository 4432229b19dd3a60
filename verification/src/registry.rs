//! The record of every native handle that this layer governs, and of who
//! still refers to whom.
//!
//! A device stays open while a [`Device`](crate::device::Device) value or a
//! context refers to it; a context stays alive while a
//! [`Context`](crate::context::Context) value, a buffer or a source refers to
//! it. Whatever is no longer referred to is torn down at once, from the leaf
//! towards the root: the buffer or source first, then its context, then the
//! device.

use vstd::prelude::*;
use crate::error::{AllenError, AllenResult};
use crate::native::NativeCall;
use crate::operation::{Check, Operation};
use crate::state::DistanceModel;
use crate::value::{Shape, Value};

verus! {

/// An open device.
#[derive(Debug, Clone, Copy, PartialEq, Eq)]
pub struct DeviceRecord {
    pub handle: u64,
    /// The number of `Device` values that refer to the device.
    pub holders: usize,
}

/// A live context.
#[derive(Debug, Clone, Copy, PartialEq, Eq)]
pub struct ContextRecord {
    pub handle: u64,
    /// The slot of the device that the context was created on.
    pub device: usize,
    /// The number of `Context` values that refer to the context.
    pub holders: usize,
    pub distance_model: DistanceModel,
}

/// A live buffer or source.
#[derive(Debug, Clone, Copy, PartialEq, Eq)]
pub struct NameRecord {
    pub handle: u32,
    /// The slot of the context that owns the buffer or source.
    pub context: usize,
}

/// The record of all devices, contexts, buffers and sources.
#[derive(Debug)]
pub struct Registry {
    pub(crate) devices: Vec<Option<DeviceRecord>>,
    pub(crate) contexts: Vec<Option<ContextRecord>>,
    pub(crate) buffers: Vec<Option<NameRecord>>,
    pub(crate) sources: Vec<Option<NameRecord>>,
}

/// What a teardown operation takes away.
#[derive(Debug, Clone, Copy, PartialEq, Eq, Structural)]
pub enum Subject {
    Buffer,
    Source,
    Context,
    Device,
}

/// The report of a teardown operation that failed. Nobody is left to hand
/// the error to, so it is reported as a warning instead.
#[derive(Debug, PartialEq, Eq)]
pub struct Warning {
    pub subject: Subject,
    pub error: AllenError,
}

/// What the call takes away, if it is a teardown call.
pub open spec fn subject_of(call: NativeCall) -> Option<Subject> {
    match call {
        NativeCall::DeleteBuffer { .. } => Some(Subject::Buffer),
        NativeCall::DeleteSource { .. } => Some(Subject::Source),
        NativeCall::DestroyContext { .. } => Some(Subject::Context),
        NativeCall::CloseDevice { .. } => Some(Subject::Device),
        _ => None,
    }
}

/// What the operation takes away, if it is a teardown operation.
pub fn teardown_subject(op: &Operation) -> (subject: Option<Subject>)
    ensures
        subject == subject_of(op.call),
{
    match &op.call {
        NativeCall::DeleteBuffer { .. } => Some(Subject::Buffer),
        NativeCall::DeleteSource { .. } => Some(Subject::Source),
        NativeCall::DestroyContext { .. } => Some(Subject::Context),
        NativeCall::CloseDevice { .. } => Some(Subject::Device),
        _ => None,
    }
}

/// The warning that the outcome of a teardown operation calls for: one for
/// every failure, with its error, and none for a success.
pub fn teardown_warning(subject: Subject, outcome: AllenResult<Value>) -> (warning: Option<Warning>)
    ensures
        match outcome {
            Ok(_) => warning is None,
            Err(error) => warning == Some(Warning { subject, error }),
        },
{
    match outcome {
        Ok(_) => None,
        Err(error) => Some(Warning { subject, error }),
    }
}

/// Whether `after` is `before` with `record` put in `slot`, and `slot` is
/// the first slot that was vacant, or a new one at the end if none was.
pub open spec fn placed<T>(before: Seq<Option<T>>, after: Seq<Option<T>>, slot: int, record: T)
    -> bool {
    &&& forall|i: int| 0 <= i < slot && i < before.len() ==> (#[trigger] before[i]) is Some
    &&& {
        ||| 0 <= slot < before.len() && before[slot] is None && after == before.update(
            slot,
            Some(record),
        )
        ||| slot == before.len() && after == before.push(Some(record))
    }
}

/// The operation that deletes a buffer, under the currency of its context.
pub open spec fn delete_buffer_op(context: u64, buffer: u32) -> Operation {
    Operation {
        context: Some(context),
        gate: None,
        setup: None,
        call: NativeCall::DeleteBuffer { buffer },
        check: Check::Al,
        shape: Shape::Unit,
    }
}

/// The operation that deletes a source, under the currency of its context.
pub open spec fn delete_source_op(context: u64, source: u32) -> Operation {
    Operation {
        context: Some(context),
        gate: None,
        setup: None,
        call: NativeCall::DeleteSource { source },
        check: Check::Al,
        shape: Shape::Unit,
    }
}

/// The operation that destroys a context.
pub open spec fn destroy_context_op(device: u64, context: u64) -> Operation {
    Operation {
        context: None,
        gate: None,
        setup: None,
        call: NativeCall::DestroyContext { context },
        check: Check::Alc { device },
        shape: Shape::Unit,
    }
}

/// The operation that closes a device.
pub open spec fn close_device_op(device: u64) -> Operation {
    Operation {
        context: None,
        gate: None,
        setup: None,
        call: NativeCall::CloseDevice { device },
        check: Check::Unchecked,
        shape: Shape::Unit,
    }
}

impl Registry {
    pub open(crate) spec fn devices(self) -> Seq<Option<DeviceRecord>> {
        self.devices@
    }

    pub open(crate) spec fn contexts(self) -> Seq<Option<ContextRecord>> {
        self.contexts@
    }

    pub open(crate) spec fn buffers(self) -> Seq<Option<NameRecord>> {
        self.buffers@
    }

    pub open(crate) spec fn sources(self) -> Seq<Option<NameRecord>> {
        self.sources@
    }

    /// Whether the slot holds an open device.
    pub open spec fn device_live(self, slot: int) -> bool {
        0 <= slot < self.devices().len() && self.devices()[slot] is Some
    }

    /// Whether the slot holds a live context.
    pub open spec fn context_live(self, slot: int) -> bool {
        0 <= slot < self.contexts().len() && self.contexts()[slot] is Some
    }

    /// Whether some live context was created on the device in `slot`.
    pub open spec fn device_has_contexts(self, slot: int) -> bool {
        exists|i: int|
            0 <= i < self.contexts().len() && (#[trigger] self.contexts()[i]) is Some
                && self.contexts()[i].unwrap().device == slot
    }

    /// Whether some live buffer belongs to the context in `slot`.
    pub open spec fn context_has_buffers(self, slot: int) -> bool {
        exists|i: int|
            0 <= i < self.buffers().len() && (#[trigger] self.buffers()[i]) is Some
                && self.buffers()[i].unwrap().context == slot
    }

    /// Whether some live source belongs to the context in `slot`.
    pub open spec fn context_has_sources(self, slot: int) -> bool {
        exists|i: int|
            0 <= i < self.sources().len() && (#[trigger] self.sources()[i]) is Some
                && self.sources()[i].unwrap().context == slot
    }

    /// The slot of a live context on the device in `slot`, if there is one.
    spec fn a_context_on(self, slot: int) -> int {
        choose|i: int|
            0 <= i < self.contexts().len() && (#[trigger] self.contexts()[i]) is Some
                && self.contexts()[i].unwrap().device == slot
    }

    /// The slot of a live buffer of the context in `slot`, if there is one.
    spec fn a_buffer_of(self, slot: int) -> int {
        choose|i: int|
            0 <= i < self.buffers().len() && (#[trigger] self.buffers()[i]) is Some
                && self.buffers()[i].unwrap().context == slot
    }

    /// The slot of a live source of the context in `slot`, if there is one.
    spec fn a_source_of(self, slot: int) -> int {
        choose|i: int|
            0 <= i < self.sources().len() && (#[trigger] self.sources()[i]) is Some
                && self.sources()[i].unwrap().context == slot
    }

    /// Whether anything still refers to the device in `slot`.
    pub open spec fn device_in_use(self, slot: int) -> bool {
        self.devices()[slot].unwrap().holders > 0 || self.device_has_contexts(slot)
    }

    /// Whether anything still refers to the context in `slot`.
    pub open spec fn context_in_use(self, slot: int) -> bool {
        self.contexts()[slot].unwrap().holders > 0 || self.context_has_buffers(slot)
            || self.context_has_sources(slot)
    }

    /// The slot of the device under the context in `slot`.
    pub open spec fn device_under(self, slot: int) -> int {
        self.contexts()[slot].unwrap().device as int
    }

    /// The slot of the device that the buffer in `slot` lives on: buffers
    /// are named per device.
    pub open spec fn buffer_device(self, slot: int) -> int {
        self.device_under(self.buffers()[slot].unwrap().context as int)
    }

    /// Whether a device with this address is on record.
    pub open spec fn knows_device(self, handle: u64) -> bool {
        exists|i: int|
            0 <= i < self.devices().len() && (#[trigger] self.devices()[i]) is Some
                && self.devices()[i].unwrap().handle == handle
    }

    /// Whether a context with this address is on record.
    pub open spec fn knows_context(self, handle: u64) -> bool {
        exists|i: int|
            0 <= i < self.contexts().len() && (#[trigger] self.contexts()[i]) is Some
                && self.contexts()[i].unwrap().handle == handle
    }

    /// Whether a buffer with this name is on record on the device in
    /// `device`.
    pub open spec fn knows_buffer(self, device: int, handle: u32) -> bool {
        exists|i: int|
            0 <= i < self.buffers().len() && (#[trigger] self.buffers()[i]) is Some
                && self.buffers()[i].unwrap().handle == handle && self.buffer_device(i) == device
    }

    /// Whether a source with this name is on record in the context in
    /// `context`.
    pub open spec fn knows_source(self, context: int, handle: u32) -> bool {
        exists|i: int|
            0 <= i < self.sources().len() && (#[trigger] self.sources()[i]) is Some
                && self.sources()[i].unwrap().handle == handle
                && self.sources()[i].unwrap().context == context
    }

    /// No native handle is on record twice: one record governs one device,
    /// one context, one buffer of a device, one source of a context.
    pub open spec fn unique(self) -> bool {
        &&& forall|i: int, j: int|
            #![trigger self.devices()[i], self.devices()[j]]
            0 <= i < j < self.devices().len() && self.devices()[i] is Some
                && self.devices()[j] is Some ==> self.devices()[i].unwrap().handle
                != self.devices()[j].unwrap().handle
        &&& forall|i: int, j: int|
            #![trigger self.contexts()[i], self.contexts()[j]]
            0 <= i < j < self.contexts().len() && self.contexts()[i] is Some
                && self.contexts()[j] is Some ==> self.contexts()[i].unwrap().handle
                != self.contexts()[j].unwrap().handle
        &&& forall|i: int, j: int|
            #![trigger self.buffers()[i], self.buffers()[j]]
            0 <= i < j < self.buffers().len() && self.buffers()[i] is Some
                && self.buffers()[j] is Some ==> self.buffers()[i].unwrap().handle
                != self.buffers()[j].unwrap().handle || self.buffer_device(i)
                != self.buffer_device(j)
        &&& forall|i: int, j: int|
            #![trigger self.sources()[i], self.sources()[j]]
            0 <= i < j < self.sources().len() && self.sources()[i] is Some
                && self.sources()[j] is Some ==> self.sources()[i].unwrap().handle
                != self.sources()[j].unwrap().handle || self.sources()[i].unwrap().context
                != self.sources()[j].unwrap().context
    }

    /// Every record refers to a live parent, no handle is null, and no
    /// native handle is on record twice.
    pub open spec fn linked(self) -> bool {
        &&& self.unique()
        &&& forall|i: int|
            0 <= i < self.devices().len() && (#[trigger] self.devices()[i]) is Some
                ==> self.devices()[i].unwrap().handle != 0
        &&& forall|i: int|
            0 <= i < self.contexts().len() && (#[trigger] self.contexts()[i]) is Some ==> {
                &&& self.contexts()[i].unwrap().handle != 0
                &&& self.device_live(self.contexts()[i].unwrap().device as int)
            }
        &&& forall|i: int|
            0 <= i < self.buffers().len() && (#[trigger] self.buffers()[i]) is Some
                ==> self.context_live(self.buffers()[i].unwrap().context as int)
        &&& forall|i: int|
            0 <= i < self.sources().len() && (#[trigger] self.sources()[i]) is Some
                ==> self.context_live(self.sources()[i].unwrap().context as int)
    }

    /// Every live context but, possibly, the one in `except` is referred to.
    pub open spec fn contexts_in_use_but(self, except: int) -> bool {
        forall|i: int|
            0 <= i < self.contexts().len() && (#[trigger] self.contexts()[i]) is Some && i
                != except ==> self.context_in_use(i)
    }

    /// Every open device but, possibly, the one in `except` is referred to.
    pub open spec fn devices_in_use_but(self, except: int) -> bool {
        forall|i: int|
            0 <= i < self.devices().len() && (#[trigger] self.devices()[i]) is Some && i
                != except ==> self.device_in_use(i)
    }

    /// The registry's invariant: every record refers to a live parent, one
    /// record governs one native handle, and whatever is recorded is still
    /// referred to.
    pub open spec fn wf(self) -> bool {
        &&& self.linked()
        &&& self.contexts_in_use_but(-1)
        &&& self.devices_in_use_but(-1)
    }

    /// A registry that records nothing.
    pub fn new() -> (registry: Registry)
        ensures
            registry.wf(),
            registry.devices().len() == 0,
            registry.contexts().len() == 0,
            registry.buffers().len() == 0,
            registry.sources().len() == 0,
    {
        Registry {
            devices: Vec::new(),
            contexts: Vec::new(),
            buffers: Vec::new(),
            sources: Vec::new(),
        }
    }

    /// Whether a device with this address is on record.
    pub fn has_device(&self, handle: u64) -> (found: bool)
        ensures
            found == self.knows_device(handle),
    {
        let mut i: usize = 0;
        while i < self.devices.len()
            invariant
                i <= self.devices.len(),
                forall|j: int|
                    0 <= j < i && (#[trigger] self.devices()[j]) is Some
                        ==> self.devices()[j].unwrap().handle != handle,
            decreases self.devices.len() - i,
        {
            match self.devices[i] {
                Some(record) => {
                    if record.handle == handle {
                        return true;
                    }
                },
                None => {},
            }
            i += 1;
        }
        false
    }

    /// Whether a context with this address is on record.
    pub fn has_context(&self, handle: u64) -> (found: bool)
        ensures
            found == self.knows_context(handle),
    {
        let mut i: usize = 0;
        while i < self.contexts.len()
            invariant
                i <= self.contexts.len(),
                forall|j: int|
                    0 <= j < i && (#[trigger] self.contexts()[j]) is Some
                        ==> self.contexts()[j].unwrap().handle != handle,
            decreases self.contexts.len() - i,
        {
            match self.contexts[i] {
                Some(record) => {
                    if record.handle == handle {
                        return true;
                    }
                },
                None => {},
            }
            i += 1;
        }
        false
    }

    /// Whether a live context was created on the device in `slot`.
    pub(crate) fn has_contexts(&self, slot: usize) -> (found: bool)
        ensures
            found == self.device_has_contexts(slot as int),
    {
        let mut i: usize = 0;
        while i < self.contexts.len()
            invariant
                i <= self.contexts.len(),
                forall|j: int|
                    0 <= j < i && (#[trigger] self.contexts()[j]) is Some
                        ==> self.contexts()[j].unwrap().device != slot,
            decreases self.contexts.len() - i,
        {
            match self.contexts[i] {
                Some(record) => {
                    if record.device == slot {
                        return true;
                    }
                },
                None => {},
            }
            i += 1;
        }
        false
    }

    /// Whether a live buffer or source belongs to the context in `slot`.
    pub(crate) fn has_dependents(&self, slot: usize) -> (found: bool)
        ensures
            found == (self.context_has_buffers(slot as int) || self.context_has_sources(
                slot as int,
            )),
    {
        let mut i: usize = 0;
        while i < self.buffers.len()
            invariant
                i <= self.buffers.len(),
                forall|j: int|
                    0 <= j < i && (#[trigger] self.buffers()[j]) is Some
                        ==> self.buffers()[j].unwrap().context != slot,
            decreases self.buffers.len() - i,
        {
            match self.buffers[i] {
                Some(record) => {
                    if record.context == slot {
                        return true;
                    }
                },
                None => {},
            }
            i += 1;
        }
        let mut k: usize = 0;
        while k < self.sources.len()
            invariant
                k <= self.sources.len(),
                !self.context_has_buffers(slot as int),
                forall|j: int|
                    0 <= j < k && (#[trigger] self.sources()[j]) is Some
                        ==> self.sources()[j].unwrap().context != slot,
            decreases self.sources.len() - k,
        {
            match self.sources[k] {
                Some(record) => {
                    if record.context == slot {
                        return true;
                    }
                },
                None => {},
            }
            k += 1;
        }
        false
    }
}

impl Registry {
    /// Whether the context in `slot` is destroyed on the way to `post`:
    /// no `Context` value is left for it, and no buffer or source of it
    /// remains.
    pub open spec fn context_goes(slot: int, holders_left: usize, post: Registry) -> bool {
        &&& holders_left == 0
        &&& !post.context_has_buffers(slot)
        &&& !post.context_has_sources(slot)
    }

    /// Whether the device under the context in `slot` is closed on the way
    /// to `post`: the context is destroyed, no `Device` value refers to the
    /// device, and no other context remains on it.
    pub open spec fn device_goes(self, slot: int, holders_left: usize, post: Registry) -> bool {
        &&& Self::context_goes(slot, holders_left, post)
        &&& self.devices()[self.device_under(slot)].unwrap().holders == 0
        &&& !post.device_has_contexts(self.device_under(slot))
    }

    /// Whether `post` has the contexts and devices that this registry has
    /// once the context in `slot` is left with `holders_left` values that
    /// refer to it, and whatever nothing refers to any more is torn down.
    pub open spec fn cascades(self, slot: int, holders_left: usize, post: Registry) -> bool {
        let record = self.contexts()[slot].unwrap();
        &&& post.contexts() == self.contexts().update(
            slot,
            if Self::context_goes(slot, holders_left, post) {
                None
            } else {
                Some(
                    ContextRecord {
                        handle: record.handle,
                        device: record.device,
                        holders: holders_left,
                        distance_model: record.distance_model,
                    },
                )
            },
        )
        &&& post.devices() == if self.device_goes(slot, holders_left, post) {
            self.devices().update(self.device_under(slot), None)
        } else {
            self.devices()
        }
    }

    /// The operations that this teardown calls for, leaf first.
    pub open spec fn cascade_plan(self, slot: int, holders_left: usize, post: Registry) -> Seq<
        Operation,
    > {
        let context = self.contexts()[slot].unwrap();
        let device = self.devices()[context.device as int].unwrap();
        if !Self::context_goes(slot, holders_left, post) {
            Seq::empty()
        } else if self.device_goes(slot, holders_left, post) {
            seq![
                destroy_context_op(device.handle, context.handle),
                close_device_op(device.handle),
            ]
        } else {
            seq![destroy_context_op(device.handle, context.handle)]
        }
    }

    /// Closes the device in `slot` if nothing refers to it any more, and
    /// adds the closing operation to the plan.
    pub(crate) fn settle_device(&mut self, slot: usize, plan: &mut Vec<Operation>)
        requires
            old(self).linked(),
            old(self).contexts_in_use_but(-1),
            old(self).devices_in_use_but(slot as int),
            old(self).device_live(slot as int),
        ensures
            final(self).wf(),
            final(self).contexts() == old(self).contexts(),
            final(self).buffers() == old(self).buffers(),
            final(self).sources() == old(self).sources(),
            old(self).device_in_use(slot as int) ==> {
                &&& final(self).devices() == old(self).devices()
                &&& final(plan)@ == old(plan)@
            },
            !old(self).device_in_use(slot as int) ==> {
                &&& final(self).devices() == old(self).devices().update(slot as int, None)
                &&& final(plan)@ == old(plan)@.push(
                    close_device_op(old(self).devices()[slot as int].unwrap().handle),
                )
            },
    {
        let record = self.devices[slot].unwrap();
        if record.holders == 0 && !self.has_contexts(slot) {
            self.devices.set(slot, None);
            plan.push(
                Operation {
                    context: None,
                    gate: None,
                    setup: None,
                    call: NativeCall::CloseDevice { device: record.handle },
                    check: Check::Unchecked,
                    shape: Shape::Unit,
                },
            );
            proof {
                assert forall|i: int|
                    0 <= i < self.devices().len() && (#[trigger] self.devices()[i]) is Some
                        implies self.device_in_use(i) by {
                    assert(old(self).devices()[i] is Some);
                    assert(old(self).device_in_use(i));
                }
                assert forall|i: int|
                    0 <= i < self.contexts().len() && (#[trigger] self.contexts()[i]) is Some
                        implies self.context_in_use(i) by {
                    assert(old(self).context_in_use(i));
                }
            }
        } else {
            proof {
                assert(old(self).device_in_use(slot as int));
            }
        }
    }

    /// Destroys the context in `slot` if nothing refers to it any more, then
    /// closes its device likewise, and adds the operations to the plan.
    pub(crate) fn settle_context(&mut self, slot: usize, plan: &mut Vec<Operation>)
        requires
            old(self).linked(),
            old(self).contexts_in_use_but(slot as int),
            old(self).devices_in_use_but(-1),
            old(self).context_live(slot as int),
        ensures
            final(self).wf(),
            final(self).buffers() == old(self).buffers(),
            final(self).sources() == old(self).sources(),
            old(self).cascades(
                slot as int,
                old(self).contexts()[slot as int].unwrap().holders,
                *final(self),
            ),
            final(plan)@ == old(plan)@ + old(self).cascade_plan(
                slot as int,
                old(self).contexts()[slot as int].unwrap().holders,
                *final(self),
            ),
    {
        let record = self.contexts[slot].unwrap();
        if record.holders == 0 && !self.has_dependents(slot) {
            let device = self.devices[record.device].unwrap();
            self.contexts.set(slot, None);
            plan.push(
                Operation {
                    context: None,
                    gate: None,
                    setup: None,
                    call: NativeCall::DestroyContext { context: record.handle },
                    check: Check::Alc { device: device.handle },
                    shape: Shape::Unit,
                },
            );
            proof {
                assert forall|i: int|
                    0 <= i < self.contexts().len() && (#[trigger] self.contexts()[i]) is Some
                        implies self.context_in_use(i) by {
                    assert(old(self).contexts()[i] is Some);
                    assert(old(self).context_in_use(i));
                }
                assert forall|i: int|
                    0 <= i < self.devices().len() && (#[trigger] self.devices()[i]) is Some && i
                        != record.device implies self.device_in_use(i) by {
                    assert(old(self).device_in_use(i));
                    if old(self).devices()[i].unwrap().holders == 0 {
                        let j = old(self).a_context_on(i);
                        assert(self.contexts()[j] is Some);
                    }
                }
                assert(self.linked()) by {
                    assert forall|i: int|
                        0 <= i < self.buffers().len() && (#[trigger] self.buffers()[i]) is Some
                            implies self.context_live(
                        self.buffers()[i].unwrap().context as int,
                    ) by {
                        assert(old(self).buffers()[i] is Some);
                    }
                    assert forall|i: int|
                        0 <= i < self.sources().len() && (#[trigger] self.sources()[i]) is Some
                            implies self.context_live(
                        self.sources()[i].unwrap().context as int,
                    ) by {
                        assert(old(self).sources()[i] is Some);
                    }
                }
            }
            let ghost middle = *self;
            self.settle_device(record.device, plan);
            proof {
                assert(middle.device_in_use(record.device as int) == (device.holders > 0
                    || self.device_has_contexts(record.device as int)));
                assert(plan@ =~= old(plan)@ + old(self).cascade_plan(
                    slot as int,
                    record.holders,
                    *self,
                ));
            }
        } else {
            proof {
                assert(old(self).context_in_use(slot as int));
                assert(self.contexts() =~= old(self).contexts().update(slot as int, Some(record)));
                assert(plan@ =~= old(plan)@ + old(self).cascade_plan(
                    slot as int,
                    record.holders,
                    *self,
                ));
            }
        }
    }
}

impl Registry {
    /// A well-formed registry stays well-formed when a device that a
    /// `Device` value refers to is put on record.
    pub(crate) proof fn placed_device_keeps_wf(
        self,
        before: Registry,
        slot: int,
        record: DeviceRecord,
    )
        requires
            before.wf(),
            record.handle != 0,
            record.holders > 0,
            !before.knows_device(record.handle),
            placed(before.devices(), self.devices(), slot, record),
            self.contexts() == before.contexts(),
            self.buffers() == before.buffers(),
            self.sources() == before.sources(),
        ensures
            self.wf(),
    {
        assert forall|i: int|
            0 <= i < self.contexts().len() && (#[trigger] self.contexts()[i])
                is Some implies self.context_in_use(i) by {
            assert(before.context_in_use(i));
        }
        assert forall|i: int|
            0 <= i < self.devices().len() && (#[trigger] self.devices()[i])
                is Some implies self.device_in_use(i) by {
            if i != slot {
                assert(before.devices()[i] is Some);
                assert(before.device_in_use(i));
            }
        }
    }

    /// When the number of holders of an open device is updated in a
    /// well-formed registry, every record is still linked, and everything
    /// but, possibly, that device is still in use; the device too, if the
    /// holders were not all taken away.
    pub(crate) proof fn updated_device_keeps_links(self, before: Registry, slot: int)
        requires
            before.wf(),
            before.device_live(slot),
            self.contexts() == before.contexts(),
            self.buffers() == before.buffers(),
            self.sources() == before.sources(),
            self.devices() == before.devices().update(slot, self.devices()[slot]),
            self.devices()[slot] matches Some(record) && record.handle
                == before.devices()[slot].unwrap().handle,
        ensures
            self.linked(),
            self.contexts_in_use_but(-1),
            self.devices_in_use_but(slot),
            self.device_live(slot),
            self.device_has_contexts(slot) == before.device_has_contexts(slot),
            self.devices()[slot].unwrap().holders > 0 ==> self.wf(),
    {
        assert forall|i: int|
            0 <= i < self.contexts().len() && (#[trigger] self.contexts()[i])
                is Some implies self.context_in_use(i) by {
            assert(before.context_in_use(i));
        }
        assert forall|i: int|
            0 <= i < self.devices().len() && (#[trigger] self.devices()[i]) is Some && i
                != slot implies self.device_in_use(i) by {
            assert(before.device_in_use(i));
        }
    }

    /// A well-formed registry stays well-formed when a context that a
    /// `Context` value refers to is put on record on an open device.
    pub(crate) proof fn placed_context_keeps_wf(
        self,
        before: Registry,
        slot: int,
        record: ContextRecord,
    )
        requires
            before.wf(),
            record.handle != 0,
            record.holders > 0,
            !before.knows_context(record.handle),
            before.device_live(record.device as int),
            placed(before.contexts(), self.contexts(), slot, record),
            self.devices() == before.devices(),
            self.buffers() == before.buffers(),
            self.sources() == before.sources(),
        ensures
            self.wf(),
    {
        assert forall|i: int|
            0 <= i < self.contexts().len() && (#[trigger] self.contexts()[i])
                is Some implies self.context_in_use(i) by {
            if i != slot {
                assert(before.contexts()[i] is Some);
                assert(before.context_in_use(i));
            }
        }
        assert forall|i: int|
            0 <= i < self.devices().len() && (#[trigger] self.devices()[i])
                is Some implies self.device_in_use(i) by {
            assert(before.device_in_use(i));
            if before.devices()[i].unwrap().holders == 0 {
                let j = before.a_context_on(i);
                assert(self.contexts()[j] is Some);
            }
        }
        assert forall|i: int|
            0 <= i < self.contexts().len() && (#[trigger] self.contexts()[i])
                is Some implies self.contexts()[i].unwrap().handle != 0 && self.device_live(
            self.contexts()[i].unwrap().device as int,
        ) by {
            if i != slot {
                assert(before.contexts()[i] is Some);
            }
        }
        assert forall|i: int|
            0 <= i < self.buffers().len() && (#[trigger] self.buffers()[i])
                is Some implies self.context_live(self.buffers()[i].unwrap().context as int) by {
            assert(before.context_live(before.buffers()[i].unwrap().context as int));
        }
        assert forall|i: int|
            0 <= i < self.sources().len() && (#[trigger] self.sources()[i])
                is Some implies self.context_live(self.sources()[i].unwrap().context as int) by {
            assert(before.context_live(before.sources()[i].unwrap().context as int));
        }
    }

    /// A registry that differs from a well-formed one only in the number of
    /// holders or in the distance model of one live context still has every
    /// record linked, and everything but that context in use.
    pub(crate) proof fn updated_context_keeps_links(self, before: Registry, slot: int)
        requires
            before.wf(),
            before.context_live(slot),
            self.devices() == before.devices(),
            self.buffers() == before.buffers(),
            self.sources() == before.sources(),
            self.contexts().len() == before.contexts().len(),
            self.contexts() == before.contexts().update(slot, self.contexts()[slot]),
            self.contexts()[slot] matches Some(record) && record.handle
                == before.contexts()[slot].unwrap().handle && record.device
                == before.contexts()[slot].unwrap().device,
        ensures
            self.linked(),
            self.contexts_in_use_but(slot),
            self.devices_in_use_but(-1),
            self.context_live(slot),
    {
        assert forall|i: int|
            0 <= i < self.contexts().len() && (#[trigger] self.contexts()[i]) is Some && i
                != slot implies self.context_in_use(i) by {
            assert(before.contexts()[i] is Some);
            assert(before.context_in_use(i));
        }
        assert forall|i: int|
            0 <= i < self.devices().len() && (#[trigger] self.devices()[i])
                is Some implies self.device_in_use(i) by {
            assert(before.device_in_use(i));
            if before.devices()[i].unwrap().holders == 0 {
                let j = before.a_context_on(i);
                assert(self.contexts()[j] is Some);
            }
        }
        assert forall|i: int|
            0 <= i < self.contexts().len() && (#[trigger] self.contexts()[i])
                is Some implies self.contexts()[i].unwrap().handle != 0 && self.device_live(
            self.contexts()[i].unwrap().device as int,
        ) by {
            assert(before.contexts()[i] is Some);
        }
        assert forall|i: int|
            0 <= i < self.buffers().len() && (#[trigger] self.buffers()[i])
                is Some implies self.context_live(self.buffers()[i].unwrap().context as int) by {
            assert(before.context_live(before.buffers()[i].unwrap().context as int));
        }
        assert forall|i: int|
            0 <= i < self.sources().len() && (#[trigger] self.sources()[i])
                is Some implies self.context_live(self.sources()[i].unwrap().context as int) by {
            assert(before.context_live(before.sources()[i].unwrap().context as int));
        }
    }

    /// The same, where the context is left with a holder: the registry is
    /// well-formed.
    pub(crate) proof fn updated_context_keeps_wf(self, before: Registry, slot: int)
        requires
            before.wf(),
            before.context_live(slot),
            self.devices() == before.devices(),
            self.buffers() == before.buffers(),
            self.sources() == before.sources(),
            self.contexts().len() == before.contexts().len(),
            self.contexts() == before.contexts().update(slot, self.contexts()[slot]),
            self.contexts()[slot] matches Some(record) && record.handle
                == before.contexts()[slot].unwrap().handle && record.device
                == before.contexts()[slot].unwrap().device && (record.holders > 0
                || record.holders == before.contexts()[slot].unwrap().holders),
        ensures
            self.wf(),
    {
        self.updated_context_keeps_links(before, slot);
        assert(before.context_in_use(slot));
        assert(self.context_has_buffers(slot) == before.context_has_buffers(slot));
        assert(self.context_has_sources(slot) == before.context_has_sources(slot));
        assert(self.context_in_use(slot));
    }

    /// A well-formed registry stays well-formed when a buffer or a source of
    /// a live context is put on record.
    pub(crate) proof fn placed_name_keeps_wf(self, before: Registry, slot: int, record: NameRecord)
        requires
            before.wf(),
            before.context_live(record.context as int),
            self.devices() == before.devices(),
            self.contexts() == before.contexts(),
            (placed(before.buffers(), self.buffers(), slot, record) && self.sources()
                == before.sources() && !before.knows_buffer(
                before.device_under(record.context as int),
                record.handle,
            )) || (placed(before.sources(), self.sources(), slot, record) && self.buffers()
                == before.buffers() && !before.knows_source(record.context as int, record.handle)),
        ensures
            self.wf(),
    {
        assert forall|i: int|
            0 <= i < self.contexts().len() && (#[trigger] self.contexts()[i])
                is Some implies self.context_in_use(i) by {
            assert(before.context_in_use(i));
            if before.contexts()[i].unwrap().holders == 0 {
                if before.context_has_buffers(i) {
                    let j = before.a_buffer_of(i);
                    assert(self.buffers()[j] is Some);
                } else {
                    let j = before.a_source_of(i);
                    assert(self.sources()[j] is Some);
                }
            }
        }
        assert forall|i: int|
            0 <= i < self.devices().len() && (#[trigger] self.devices()[i])
                is Some implies self.device_in_use(i) by {
            assert(before.device_in_use(i));
        }
        assert forall|i: int|
            0 <= i < self.buffers().len() && (#[trigger] self.buffers()[i])
                is Some implies self.context_live(self.buffers()[i].unwrap().context as int) by {
            if i != slot || self.buffers() == before.buffers() {
                assert(before.buffers()[i] is Some);
            }
        }
        assert forall|i: int|
            0 <= i < self.sources().len() && (#[trigger] self.sources()[i])
                is Some implies self.context_live(self.sources()[i].unwrap().context as int) by {
            if i != slot || self.sources() == before.sources() {
                assert(before.sources()[i] is Some);
            }
        }
    }

    /// When a buffer or a source is struck from the record of a well-formed
    /// registry, every record is still linked, and everything but,
    /// possibly, the context that owned it is still in use.
    pub(crate) proof fn struck_name_keeps_links(self, before: Registry, slot: int, context: int)
        requires
            before.wf(),
            self.devices() == before.devices(),
            self.contexts() == before.contexts(),
            (0 <= slot < before.buffers().len() && before.buffers()[slot] is Some
                && before.buffers()[slot].unwrap().context == context && self.buffers()
                == before.buffers().update(slot, None) && self.sources() == before.sources()) || (0
                <= slot < before.sources().len() && before.sources()[slot] is Some
                && before.sources()[slot].unwrap().context == context && self.sources()
                == before.sources().update(slot, None) && self.buffers() == before.buffers()),
        ensures
            self.linked(),
            self.contexts_in_use_but(context),
            self.devices_in_use_but(-1),
            self.context_live(context),
    {
        assert forall|i: int|
            0 <= i < self.contexts().len() && (#[trigger] self.contexts()[i]) is Some && i
                != context implies self.context_in_use(i) by {
            assert(before.context_in_use(i));
            if before.contexts()[i].unwrap().holders == 0 {
                if before.context_has_buffers(i) {
                    let j = before.a_buffer_of(i);
                    assert(self.buffers()[j] is Some);
                } else {
                    let j = before.a_source_of(i);
                    assert(self.sources()[j] is Some);
                }
            }
        }
        assert forall|i: int|
            0 <= i < self.devices().len() && (#[trigger] self.devices()[i])
                is Some implies self.device_in_use(i) by {
            assert(before.device_in_use(i));
        }
        assert forall|i: int|
            0 <= i < self.buffers().len() && (#[trigger] self.buffers()[i])
                is Some implies self.context_live(self.buffers()[i].unwrap().context as int) by {
            assert(before.buffers()[i] is Some);
        }
        assert forall|i: int|
            0 <= i < self.sources().len() && (#[trigger] self.sources()[i])
                is Some implies self.context_live(self.sources()[i].unwrap().context as int) by {
            assert(before.sources()[i] is Some);
        }
        if 0 <= slot < before.buffers().len() && before.buffers()[slot] is Some
            && before.buffers()[slot].unwrap().context == context {
            assert(before.context_live(before.buffers()[slot].unwrap().context as int));
        } else {
            assert(before.context_live(before.sources()[slot].unwrap().context as int));
        }
    }
}

/// The first vacant slot, or the length if every slot is taken.
pub(crate) fn vacancy<T>(slots: &Vec<Option<T>>) -> (slot: usize)
    ensures
        slot <= slots.len(),
        slot < slots.len() ==> slots@[slot as int] is None,
        forall|i: int| 0 <= i < slot ==> (#[trigger] slots@[i]) is Some,
{
    let mut i: usize = 0;
    while i < slots.len()
        invariant
            i <= slots.len(),
            forall|j: int| 0 <= j < i ==> (#[trigger] slots@[j]) is Some,
        decreases slots.len() - i,
    {
        if slots[i].is_none() {
            return i;
        }
        i += 1;
    }
    i
}

/// Puts the record in the first vacant slot, or in a new one.
pub(crate) fn place<T>(slots: &mut Vec<Option<T>>, record: T) -> (slot: usize)
    ensures
        placed(old(slots)@, final(slots)@, slot as int, record),
{
    let slot = vacancy(slots);
    if slot < slots.len() {
        slots.set(slot, Some(record));
    } else {
        slots.push(Some(record));
    }
    slot
}

/// A context is on record as long as a buffer of it is, and so is the
/// device under that context.
pub proof fn buffer_keeps_its_context_alive(registry: Registry, buffer: crate::buffer::Buffer)
    requires
        registry.wf(),
        registry.owns_buffer(buffer),
    ensures
        ({
            let owner = registry.buffers()[buffer.slot() as int].unwrap().context as int;
            &&& registry.context_live(owner)
            &&& registry.device_live(registry.device_under(owner))
        }),
{
    assert(registry.buffers()[buffer.slot() as int] is Some);
}

/// A context is on record as long as a source of it is, and so is the
/// device under that context.
pub proof fn source_keeps_its_context_alive(registry: Registry, source: crate::source::Source)
    requires
        registry.wf(),
        registry.owns_source(source),
    ensures
        ({
            let owner = registry.sources()[source.slot() as int].unwrap().context as int;
            &&& registry.context_live(owner)
            &&& registry.device_live(registry.device_under(owner))
        }),
{
    assert(registry.sources()[source.slot() as int] is Some);
}

/// A device is on record as long as a context on it is.
pub proof fn context_keeps_its_device_open(registry: Registry, slot: int)
    requires
        registry.wf(),
        registry.context_live(slot),
    ensures
        registry.device_live(registry.device_under(slot)),
{
}

/// A teardown takes away only what nothing refers to any more. The context
/// goes only if no `Context` value is left for it and no buffer or source of
/// it remains; its device goes only if the context went, no `Device` value
/// refers to the device, and no other context remains on it. Every other
/// context and device is as it was.
pub proof fn teardown_spares_what_is_referred_to(
    before: Registry,
    slot: int,
    holders_left: usize,
    after: Registry,
)
    requires
        before.wf(),
        before.context_live(slot),
        before.cascades(slot, holders_left, after),
    ensures
        after.contexts()[slot] is None <==> holders_left == 0 && !after.context_has_buffers(slot)
            && !after.context_has_sources(slot),
        after.devices()[before.device_under(slot)] is None <==> after.contexts()[slot] is None
            && before.devices()[before.device_under(slot)].unwrap().holders == 0
            && !after.device_has_contexts(before.device_under(slot)),
        forall|i: int|
            0 <= i < before.contexts().len() && i != slot ==> after.contexts()[i]
                == before.contexts()[i],
        forall|i: int|
            0 <= i < before.devices().len() && i != before.device_under(slot)
                ==> after.devices()[i] == before.devices()[i],
{
    assert(before.device_live(before.device_under(slot)));
}

/// Nothing outlives its last reference: once no `Device` or `Context` value
/// is left and no buffer or source is on record, no context and no device is
/// on record either.
pub proof fn nothing_outlives_its_last_reference(registry: Registry)
    requires
        registry.wf(),
        forall|i: int|
            0 <= i < registry.devices().len() && (#[trigger] registry.devices()[i]) is Some
                ==> registry.devices()[i].unwrap().holders == 0,
        forall|i: int|
            0 <= i < registry.contexts().len() && (#[trigger] registry.contexts()[i]) is Some
                ==> registry.contexts()[i].unwrap().holders == 0,
        forall|i: int| 0 <= i < registry.buffers().len() ==> registry.buffers()[i] is None,
        forall|i: int| 0 <= i < registry.sources().len() ==> registry.sources()[i] is None,
    ensures
        forall|i: int| 0 <= i < registry.contexts().len() ==> registry.contexts()[i] is None,
        forall|i: int| 0 <= i < registry.devices().len() ==> registry.devices()[i] is None,
{
    assert forall|i: int| 0 <= i < registry.contexts().len() implies registry.contexts()[i]
        is None by {
        if registry.contexts()[i] is Some {
            assert(registry.context_in_use(i));
        }
    }
    assert forall|i: int| 0 <= i < registry.devices().len() implies registry.devices()[i]
        is None by {
        if registry.devices()[i] is Some {
            assert(registry.device_in_use(i));
        }
    }
}

/// One buffer value governs one native buffer: two buffers on record on one
/// device never have the same name.
pub proof fn one_buffer_governs_one_name(
    registry: Registry,
    one: crate::buffer::Buffer,
    other: crate::buffer::Buffer,
)
    requires
        registry.wf(),
        registry.owns_buffer(one),
        registry.owns_buffer(other),
        one.slot() != other.slot(),
    ensures
        one.spec_handle() != other.spec_handle() || registry.buffer_device(one.slot() as int)
            != registry.buffer_device(other.slot() as int),
{
    assert(registry.buffers()[one.slot() as int] is Some);
    assert(registry.buffers()[other.slot() as int] is Some);
}

/// One source value governs one native source: two sources on record in one
/// context never have the same name.
pub proof fn one_source_governs_one_name(
    registry: Registry,
    one: crate::source::Source,
    other: crate::source::Source,
)
    requires
        registry.wf(),
        registry.owns_source(one),
        registry.owns_source(other),
        one.slot() != other.slot(),
    ensures
        one.spec_handle() != other.spec_handle()
            || registry.sources()[one.slot() as int].unwrap().context
            != registry.sources()[other.slot() as int].unwrap().context,
{
    assert(registry.sources()[one.slot() as int] is Some);
    assert(registry.sources()[other.slot() as int] is Some);
}

} // verus!
