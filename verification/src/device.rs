//! Devices: opened native audio endpoints.

use vstd::prelude::*;
use crate::error::{check_alc_error, alc_error_of, AllenError, AllenResult};
use crate::extension::{check_al_extension, gate_outcome, is_device_presence_query};
use crate::native::NativeCall;
use crate::operation::{Check, Operation};
use crate::registry::{close_device_op, placed, DeviceRecord, Registry};
use crate::value::Shape;

verus! {

/// An open device. Every value of this type is one reference to the device:
/// another is made with [`Device::share`], and each is given back with
/// [`Device::release`].
#[derive(Debug, PartialEq, Eq)]
pub struct Device {
    pub(crate) slot: usize,
    pub(crate) handle: u64,
}

impl Registry {
    /// Whether `device` is a reference to a device that this registry
    /// records.
    pub open spec fn owns_device(self, device: Device) -> bool {
        &&& self.device_live(device.slot() as int)
        &&& self.devices()[device.slot() as int].unwrap().handle == device.spec_handle()
        &&& self.devices()[device.slot() as int].unwrap().holders > 0
    }
}

impl Registry {
    /// Whether `device` is a reference to a device that this registry
    /// records.
    pub fn holds_device(&self, device: &Device) -> (held: bool)
        ensures
            held == self.owns_device(*device),
    {
        if device.slot < self.devices.len() {
            match self.devices[device.slot] {
                Some(record) => record.handle == device.handle && record.holders > 0,
                None => false,
            }
        } else {
            false
        }
    }
}

impl Device {
    /// The registry slot of the device.
    pub open(crate) spec fn slot(self) -> usize {
        self.slot
    }

    /// The native address of the device.
    pub open(crate) spec fn spec_handle(self) -> u64 {
        self.handle
    }

    pub fn handle(&self) -> (handle: u64)
        ensures
            handle == self.spec_handle(),
    {
        self.handle
    }

    /// The operation that opens the device with the given specifier, or the
    /// default device. Its outcome is the device's address, which
    /// [`Device::new`] turns into a device.
    pub fn open(specifier: Option<&str>) -> (op: Operation)
        ensures
            op.context is None,
            op.gate is None,
            op.setup is None,
            op.call matches NativeCall::OpenDevice { specifier: asked } && match specifier {
                Some(name) => asked matches Some(owned) && owned@ == name@,
                None => asked is None,
            },
            op.check == Check::Unchecked,
            op.shape == Shape::Pointer,
    {
        let asked = match specifier {
            Some(name) => Some(name.to_owned()),
            None => None,
        };
        Operation {
            context: None,
            gate: None,
            setup: None,
            call: NativeCall::OpenDevice { specifier: asked },
            check: Check::Unchecked,
            shape: Shape::Pointer,
        }
    }

    /// Records the device that the engine opened at `handle`. There is no
    /// device if the engine answered with the null pointer.
    pub fn new(registry: &mut Registry, handle: u64) -> (device: Option<Device>)
        requires
            old(registry).wf(),
            !old(registry).knows_device(handle),
        ensures
            final(registry).wf(),
            final(registry).contexts() == old(registry).contexts(),
            final(registry).buffers() == old(registry).buffers(),
            final(registry).sources() == old(registry).sources(),
            handle == 0 ==> device is None && final(registry).devices() == old(registry).devices(),
            handle != 0 ==> {
                &&& device matches Some(opened)
                &&& opened.spec_handle() == handle
                &&& placed(
                    old(registry).devices(),
                    final(registry).devices(),
                    opened.slot() as int,
                    DeviceRecord { handle, holders: 1 },
                )
                &&& final(registry).owns_device(opened)
            },
    {
        if handle == 0 {
            None
        } else {
            let record = DeviceRecord { handle, holders: 1 };
            let slot = crate::registry::place(&mut registry.devices, record);
            proof {
                registry.placed_device_keeps_wf(*old(registry), slot as int, record);
            }
            Some(Device { slot, handle })
        }
    }

    /// Whether another reference to the device can still be counted.
    pub fn can_share(&self, registry: &Registry) -> (ok: bool)
        requires
            registry.owns_device(*self),
        ensures
            ok == (registry.devices()[self.slot() as int].unwrap().holders < usize::MAX),
    {
        registry.devices[self.slot].unwrap().holders < usize::MAX
    }

    /// Makes another reference to the same device.
    pub fn share(&self, registry: &mut Registry) -> (device: Device)
        requires
            old(registry).wf(),
            old(registry).owns_device(*self),
            old(registry).devices()[self.slot() as int].unwrap().holders < usize::MAX,
        ensures
            final(registry).wf(),
            device == *self,
            final(registry).devices() == old(registry).devices().update(
                self.slot() as int,
                Some(
                    DeviceRecord {
                        handle: self.spec_handle(),
                        holders: (old(registry).devices()[self.slot() as int].unwrap().holders
                            + 1) as usize,
                    },
                ),
            ),
            final(registry).contexts() == old(registry).contexts(),
            final(registry).buffers() == old(registry).buffers(),
            final(registry).sources() == old(registry).sources(),
    {
        let record = registry.devices[self.slot].unwrap();
        registry.devices.set(
            self.slot,
            Some(DeviceRecord { handle: record.handle, holders: record.holders + 1 }),
        );
        proof {
            registry.updated_device_keeps_links(*old(registry), self.slot as int);
        }
        Device { slot: self.slot, handle: self.handle }
    }

    /// Gives this reference back. The device is closed if it was the last
    /// reference and no context is left on the device: the plan then holds
    /// the closing operation, and is empty otherwise.
    pub fn release(self, registry: &mut Registry) -> (plan: Vec<Operation>)
        requires
            old(registry).wf(),
            old(registry).owns_device(self),
        ensures
            final(registry).wf(),
            final(registry).contexts() == old(registry).contexts(),
            final(registry).buffers() == old(registry).buffers(),
            final(registry).sources() == old(registry).sources(),
            ({
                let record = old(registry).devices()[self.slot() as int].unwrap();
                if record.holders > 1 || old(registry).device_has_contexts(self.slot() as int) {
                    &&& plan@ == Seq::<Operation>::empty()
                    &&& final(registry).devices() == old(registry).devices().update(
                        self.slot() as int,
                        Some(
                            DeviceRecord {
                                handle: record.handle,
                                holders: (record.holders - 1) as usize,
                            },
                        ),
                    )
                } else {
                    &&& plan@ == seq![close_device_op(self.spec_handle())]
                    &&& final(registry).devices() == old(registry).devices().update(
                        self.slot() as int,
                        None,
                    )
                }
            }),
    {
        let record = registry.devices[self.slot].unwrap();
        registry.devices.set(
            self.slot,
            Some(DeviceRecord { handle: record.handle, holders: record.holders - 1 }),
        );
        let mut plan: Vec<Operation> = Vec::new();
        proof {
            registry.updated_device_keeps_links(*old(registry), self.slot as int);
        }
        registry.settle_device(self.slot, &mut plan);
        proof {
            if record.holders > 1 || old(registry).device_has_contexts(self.slot as int) {
                assert(registry.devices() =~= old(registry).devices().update(
                    self.slot as int,
                    Some(
                        DeviceRecord {
                            handle: record.handle,
                            holders: (record.holders - 1) as usize,
                        },
                    ),
                ));
                assert(plan@ =~= Seq::<Operation>::empty());
            } else {
                assert(registry.devices() =~= old(registry).devices().update(
                    self.slot as int,
                    None,
                ));
                assert(plan@ =~= seq![close_device_op(self.spec_handle())]);
            }
        }
        plan
    }

    /// The operation that asks for the name of the device. Its outcome is
    /// a text.
    pub fn device_name(&self) -> (op: Operation)
        ensures
            op == (Operation {
                context: None,
                gate: None,
                setup: None,
                call: NativeCall::DeviceName { device: self.spec_handle() },
                check: Check::Unchecked,
                shape: Shape::Text,
            }),
    {
        Operation {
            context: None,
            gate: None,
            setup: None,
            call: NativeCall::DeviceName { device: self.handle },
            check: Check::Unchecked,
            shape: Shape::Text,
        }
    }

    /// The operation that creates a context under the device. Its outcome is
    /// the context's address, never null, which
    /// [`Context::new`](crate::context::Context::new) turns into a context;
    /// where the engine creates none, the outcome is the device's error.
    pub fn create_context(&self) -> (op: Operation)
        ensures
            op == (Operation {
                context: None,
                gate: None,
                setup: None,
                call: NativeCall::CreateContext { device: self.spec_handle() },
                check: Check::AlcIfNull { device: self.spec_handle() },
                shape: Shape::Pointer,
            }),
    {
        Operation {
            context: None,
            gate: None,
            setup: None,
            call: NativeCall::CreateContext { device: self.handle },
            check: Check::AlcIfNull { device: self.handle },
            shape: Shape::Pointer,
        }
    }

    /// The device-level query for the extension `name`. Its outcome is a
    /// boolean.
    pub fn is_extension_present(&self, name: &str) -> (op: Operation)
        ensures
            is_device_presence_query(op, self.spec_handle(), name@),
    {
        Operation {
            context: None,
            gate: None,
            setup: None,
            call: NativeCall::AlcIsExtensionPresent { device: self.handle, name: name.to_owned() },
            check: Check::Alc { device: self.handle },
            shape: Shape::Flag,
        }
    }

    /// Decides what the outcome of [`Device::is_extension_present`] for
    /// `name` means for an operation that needs the extension: an absent
    /// extension is the error `MissingExtension` with that name, and a
    /// query that failed keeps its error.
    pub fn check_alc_extension(&self, name: &str, present: AllenResult<bool>) -> (result:
        AllenResult<()>)
        ensures
            gate_outcome(name@, present, result),
    {
        check_al_extension(name, present)
    }

    /// Checks the code that the device's error query returned.
    pub fn check_alc_error(&self, code: i32) -> (result: AllenResult<()>)
        ensures
            code == 0 ==> result == Ok::<(), AllenError>(()),
            code != 0 ==> result == Err::<(), AllenError>(alc_error_of(code)),
    {
        check_alc_error(code)
    }
}

} // verus!
