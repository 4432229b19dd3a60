//! Contexts: the state scopes that buffers, sources and listeners live in.

use vstd::prelude::*;
use crate::currency::{Acquisition, ContextManager};
use crate::device::Device;
use crate::listener::Listener;
use crate::native::{NativeCall, Raw};
use crate::operation::{Check, Operation};
use crate::registry::{placed, ContextRecord, Registry};
use crate::state::DistanceModel;
use crate::value::Shape;

verus! {

pub const AL_VENDOR: i32 = 0xB001;

pub const AL_VERSION: i32 = 0xB002;

pub const AL_RENDERER: i32 = 0xB003;

pub const AL_EXTENSIONS: i32 = 0xB004;

/// A context. Every value of this type is one reference to the context:
/// another is made with [`Context::share`], and each is given back with
/// [`Context::release`]. All references see the same distance model.
#[derive(Debug, PartialEq, Eq)]
pub struct Context {
    pub(crate) slot: usize,
    pub(crate) handle: u64,
    pub(crate) device: u64,
}

impl Registry {
    /// Whether `context` is a reference to a context that this registry
    /// records.
    pub open spec fn owns_context(self, context: Context) -> bool {
        &&& self.context_live(context.slot() as int)
        &&& self.contexts()[context.slot() as int].unwrap().handle == context.spec_handle()
        &&& self.contexts()[context.slot() as int].unwrap().holders > 0
        &&& self.device_live(self.device_under(context.slot() as int))
        &&& self.devices()[self.device_under(context.slot() as int)].unwrap().handle
            == context.spec_device()
    }
}

impl Registry {
    /// Whether `context` is a reference to a context that this registry
    /// records.
    pub fn holds_context(&self, context: &Context) -> (held: bool)
        ensures
            held == self.owns_context(*context),
    {
        if context.slot < self.contexts.len() {
            match self.contexts[context.slot] {
                Some(record) => {
                    if record.handle == context.handle && record.holders > 0 && record.device
                        < self.devices.len() {
                        match self.devices[record.device] {
                            Some(under) => under.handle == context.device,
                            None => false,
                        }
                    } else {
                        false
                    }
                },
                None => false,
            }
        } else {
            false
        }
    }
}

impl Context {
    /// The registry slot of the context.
    pub open(crate) spec fn slot(self) -> usize {
        self.slot
    }

    /// The native address of the context.
    pub open(crate) spec fn spec_handle(self) -> u64 {
        self.handle
    }

    /// The native address of the device under the context.
    pub open(crate) spec fn spec_device(self) -> u64 {
        self.device
    }

    /// An operation that runs under the currency of this context, is not
    /// gated, and is followed by the context-level error query.
    pub open spec fn checked(self, call: NativeCall, shape: Shape) -> Operation {
        Operation {
            context: Some(self.spec_handle()),
            gate: None,
            setup: None,
            call,
            check: Check::Al,
            shape,
        }
    }

    /// The query for one of the engine's descriptive strings, under the
    /// currency of this context. No error query follows it.
    pub open spec fn string_query(self, param: i32) -> Operation {
        Operation {
            context: Some(self.spec_handle()),
            gate: None,
            setup: None,
            call: NativeCall::GetString { param },
            check: Check::Unchecked,
            shape: Shape::Text,
        }
    }

    /// An operation on the context itself, under its own currency, followed
    /// by the error query of its device.
    pub open spec fn device_checked(self, call: NativeCall) -> Operation {
        Operation {
            context: Some(self.spec_handle()),
            gate: None,
            setup: None,
            call,
            check: Check::Alc { device: self.spec_device() },
            shape: Shape::Unit,
        }
    }

    pub fn handle(&self) -> (handle: u64)
        ensures
            handle == self.spec_handle(),
    {
        self.handle
    }

    /// Records the context that the engine created at `handle` on the
    /// device. The context starts with the default distance model and holds
    /// its device open for as long as it lives.
    pub fn new(registry: &mut Registry, device: &Device, handle: u64) -> (context: Context)
        requires
            old(registry).wf(),
            old(registry).owns_device(*device),
            handle != 0,
            !old(registry).knows_context(handle),
        ensures
            final(registry).wf(),
            final(registry).devices() == old(registry).devices(),
            final(registry).buffers() == old(registry).buffers(),
            final(registry).sources() == old(registry).sources(),
            context.spec_handle() == handle,
            context.spec_device() == device.spec_handle(),
            placed(
                old(registry).contexts(),
                final(registry).contexts(),
                context.slot() as int,
                ContextRecord {
                    handle,
                    device: device.slot(),
                    holders: 1,
                    distance_model: DistanceModel::InverseClamped,
                },
            ),
            final(registry).owns_context(context),
    {
        let record = ContextRecord {
            handle,
            device: device.slot,
            holders: 1,
            distance_model: DistanceModel::InverseClamped,
        };
        let slot = crate::registry::place(&mut registry.contexts, record);
        proof {
            registry.placed_context_keeps_wf(*old(registry), slot as int, record);
        }
        Context { slot, handle, device: device.handle }
    }

    /// Whether another reference to the context can still be counted.
    pub fn can_share(&self, registry: &Registry) -> (ok: bool)
        requires
            registry.owns_context(*self),
        ensures
            ok == (registry.contexts()[self.slot() as int].unwrap().holders < usize::MAX),
    {
        registry.contexts[self.slot].unwrap().holders < usize::MAX
    }

    /// Makes another reference to the same context.
    pub fn share(&self, registry: &mut Registry) -> (context: Context)
        requires
            old(registry).wf(),
            old(registry).owns_context(*self),
            old(registry).contexts()[self.slot() as int].unwrap().holders < usize::MAX,
        ensures
            final(registry).wf(),
            context == *self,
            final(registry).owns_context(context),
            final(registry).contexts() == old(registry).contexts().update(
                self.slot() as int,
                Some(
                    ContextRecord {
                        handle: old(registry).contexts()[self.slot() as int].unwrap().handle,
                        device: old(registry).contexts()[self.slot() as int].unwrap().device,
                        holders: (old(registry).contexts()[self.slot() as int].unwrap().holders
                            + 1) as usize,
                        distance_model: old(
                            registry,
                        ).contexts()[self.slot() as int].unwrap().distance_model,
                    },
                ),
            ),
            final(registry).devices() == old(registry).devices(),
            final(registry).buffers() == old(registry).buffers(),
            final(registry).sources() == old(registry).sources(),
    {
        let record = registry.contexts[self.slot].unwrap();
        registry.contexts.set(
            self.slot,
            Some(
                ContextRecord {
                    handle: record.handle,
                    device: record.device,
                    holders: record.holders + 1,
                    distance_model: record.distance_model,
                },
            ),
        );
        proof {
            registry.updated_context_keeps_wf(*old(registry), self.slot as int);
        }
        Context { slot: self.slot, handle: self.handle, device: self.device }
    }

    /// Gives this reference back. If it was the last one and the context
    /// has no buffer or source left, the context is destroyed, and its
    /// device is closed if nothing else refers to that: the plan holds the
    /// operations, leaf first.
    pub fn release(self, registry: &mut Registry) -> (plan: Vec<Operation>)
        requires
            old(registry).wf(),
            old(registry).owns_context(self),
        ensures
            final(registry).wf(),
            final(registry).buffers() == old(registry).buffers(),
            final(registry).sources() == old(registry).sources(),
            old(registry).cascades(
                self.slot() as int,
                (old(registry).contexts()[self.slot() as int].unwrap().holders - 1) as usize,
                *final(registry),
            ),
            plan@ == old(registry).cascade_plan(
                self.slot() as int,
                (old(registry).contexts()[self.slot() as int].unwrap().holders - 1) as usize,
                *final(registry),
            ),
    {
        let record = registry.contexts[self.slot].unwrap();
        registry.contexts.set(
            self.slot,
            Some(
                ContextRecord {
                    handle: record.handle,
                    device: record.device,
                    holders: record.holders - 1,
                    distance_model: record.distance_model,
                },
            ),
        );
        let mut plan: Vec<Operation> = Vec::new();
        proof {
            registry.updated_context_keeps_links(*old(registry), self.slot as int);
        }
        let ghost middle = *registry;
        registry.settle_context(self.slot, &mut plan);
        proof {
            let left = (record.holders - 1) as usize;
            assert(middle.contexts().update(
                self.slot as int,
                registry.contexts()[self.slot as int],
            ) =~= old(registry).contexts().update(
                self.slot as int,
                registry.contexts()[self.slot as int],
            ));
            assert(plan@ =~= old(registry).cascade_plan(self.slot as int, left, *registry));
        }
        plan
    }

    /// Asks the manager to make this context current.
    pub fn make_current(&self, manager: &mut ContextManager) -> (answer: Acquisition)
        ensures
            old(manager).acquires(self.spec_handle(), *final(manager), answer),
    {
        manager.acquire_current(self.handle)
    }

    /// Whether this context is the current one, given the engine's answer
    /// to the manager's query for the current context.
    pub fn is_current(&self, reported: &Raw) -> (is_current: bool)
        ensures
            is_current == (*reported == Raw::Pointer(self.spec_handle())),
    {
        match reported {
            Raw::Pointer(address) => *address == self.handle,
            _ => false,
        }
    }

    /// The operation that asks for the vendor of the engine.
    pub fn vendor(&self) -> (op: Operation)
        ensures
            op == self.string_query(AL_VENDOR),
    {
        self.get_string(AL_VENDOR)
    }

    /// The operation that asks for the version of the engine.
    pub fn version(&self) -> (op: Operation)
        ensures
            op == self.string_query(AL_VERSION),
    {
        self.get_string(AL_VERSION)
    }

    /// The operation that asks for the renderer of the engine.
    pub fn renderer(&self) -> (op: Operation)
        ensures
            op == self.string_query(AL_RENDERER),
    {
        self.get_string(AL_RENDERER)
    }

    /// The operation that asks for the list of the engine's extensions.
    pub fn extensions(&self) -> (op: Operation)
        ensures
            op == self.string_query(AL_EXTENSIONS),
    {
        self.get_string(AL_EXTENSIONS)
    }

    fn get_string(&self, param: i32) -> (op: Operation)
        ensures
            op == self.string_query(param),
    {
        Operation {
            context: Some(self.handle),
            gate: None,
            setup: None,
            call: NativeCall::GetString { param },
            check: Check::Unchecked,
            shape: Shape::Text,
        }
    }

    /// The distance model that sources of this context play with.
    pub fn get_distance_model(&self, registry: &Registry) -> (model: DistanceModel)
        requires
            registry.owns_context(*self),
        ensures
            model == registry.contexts()[self.slot() as int].unwrap().distance_model,
    {
        registry.contexts[self.slot].unwrap().distance_model
    }

    /// Sets the distance model, for every reference to this context.
    pub fn set_distance_model(&self, registry: &mut Registry, value: DistanceModel)
        requires
            old(registry).wf(),
            old(registry).owns_context(*self),
        ensures
            final(registry).wf(),
            final(registry).owns_context(*self),
            final(registry).contexts() == old(registry).contexts().update(
                self.slot() as int,
                Some(
                    ContextRecord {
                        handle: old(registry).contexts()[self.slot() as int].unwrap().handle,
                        device: old(registry).contexts()[self.slot() as int].unwrap().device,
                        holders: old(registry).contexts()[self.slot() as int].unwrap().holders,
                        distance_model: value,
                    },
                ),
            ),
            final(registry).devices() == old(registry).devices(),
            final(registry).buffers() == old(registry).buffers(),
            final(registry).sources() == old(registry).sources(),
    {
        let record = registry.contexts[self.slot].unwrap();
        registry.contexts.set(
            self.slot,
            Some(
                ContextRecord {
                    handle: record.handle,
                    device: record.device,
                    holders: record.holders,
                    distance_model: value,
                },
            ),
        );
        proof {
            registry.updated_context_keeps_wf(*old(registry), self.slot as int);
        }
    }

    /// The listener of this context.
    pub fn listener(&self) -> (listener: Listener<'_>)
        ensures
            listener.context() == *self,
    {
        Listener::new(self)
    }

    /// The operation that generates a buffer in this context. Its outcome is
    /// the buffer's name, which [`Buffer::new`](crate::buffer::Buffer::new)
    /// turns into a buffer.
    pub fn new_buffer(&self) -> (op: Operation)
        ensures
            op == self.checked(NativeCall::GenBuffer, Shape::Name),
    {
        Operation {
            context: Some(self.handle),
            gate: None,
            setup: None,
            call: NativeCall::GenBuffer,
            check: Check::Al,
            shape: Shape::Name,
        }
    }

    /// The operation that generates a source in this context. Its outcome is
    /// the source's name, which [`Source::new`](crate::source::Source::new)
    /// turns into a source.
    pub fn new_source(&self) -> (op: Operation)
        ensures
            op == self.checked(NativeCall::GenSource, Shape::Name),
    {
        Operation {
            context: Some(self.handle),
            gate: None,
            setup: None,
            call: NativeCall::GenSource,
            check: Check::Al,
            shape: Shape::Name,
        }
    }

    /// The operation that suspends the processing of this context.
    pub fn suspend(&self) -> (op: Operation)
        ensures
            op == self.device_checked(NativeCall::SuspendContext { context: self.spec_handle() }),
    {
        Operation {
            context: Some(self.handle),
            gate: None,
            setup: None,
            call: NativeCall::SuspendContext { context: self.handle },
            check: Check::Alc { device: self.device },
            shape: Shape::Unit,
        }
    }

    /// The operation that resumes the processing of this context.
    pub fn process(&self) -> (op: Operation)
        ensures
            op == self.device_checked(NativeCall::ProcessContext { context: self.spec_handle() }),
    {
        Operation {
            context: Some(self.handle),
            gate: None,
            setup: None,
            call: NativeCall::ProcessContext { context: self.handle },
            check: Check::Alc { device: self.device },
            shape: Shape::Unit,
        }
    }
}

} // verus!
