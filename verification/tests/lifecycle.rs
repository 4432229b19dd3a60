use allen::{
    Buffer, Check, Context, Device, DistanceModel, NativeCall, Operation, Registry, Shape, Source,
};

fn delete_buffer(context: u64, buffer: u32) -> Operation {
    Operation {
        context: Some(context),
        gate: None,
        setup: None,
        call: NativeCall::DeleteBuffer { buffer },
        check: Check::Al,
        shape: Shape::Unit,
    }
}

fn delete_source(context: u64, source: u32) -> Operation {
    Operation {
        context: Some(context),
        gate: None,
        setup: None,
        call: NativeCall::DeleteSource { source },
        check: Check::Al,
        shape: Shape::Unit,
    }
}

fn destroy_context(device: u64, context: u64) -> Operation {
    Operation {
        context: None,
        gate: None,
        setup: None,
        call: NativeCall::DestroyContext { context },
        check: Check::Alc { device },
        shape: Shape::Unit,
    }
}

fn close_device(device: u64) -> Operation {
    Operation {
        context: None,
        gate: None,
        setup: None,
        call: NativeCall::CloseDevice { device },
        check: Check::Unchecked,
        shape: Shape::Unit,
    }
}

#[test]
fn a_null_pointer_is_no_device() {
    let mut registry = Registry::new();
    assert_eq!(Device::new(&mut registry, 0), None);
}

#[test]
fn a_device_alone_is_closed_on_release() {
    let mut registry = Registry::new();
    let device = Device::new(&mut registry, 0xD0).unwrap();
    assert_eq!(device.handle(), 0xD0);
    assert_eq!(device.release(&mut registry), vec![close_device(0xD0)]);
}

#[test]
fn a_shared_device_is_closed_with_its_last_reference() {
    let mut registry = Registry::new();
    let device = Device::new(&mut registry, 0xD0).unwrap();
    assert!(device.can_share(&registry));
    let other = device.share(&mut registry);
    assert_eq!(other, device);
    assert_eq!(device.release(&mut registry), vec![]);
    assert_eq!(other.release(&mut registry), vec![close_device(0xD0)]);
}

#[test]
fn a_context_keeps_its_device_open() {
    let mut registry = Registry::new();
    let device = Device::new(&mut registry, 0xD0).unwrap();
    let context = Context::new(&mut registry, &device, 0xC0);
    assert_eq!(context.handle(), 0xC0);
    assert_eq!(device.release(&mut registry), vec![]);
    assert_eq!(
        context.release(&mut registry),
        vec![destroy_context(0xD0, 0xC0), close_device(0xD0)]
    );
}

#[test]
fn a_device_that_is_still_referred_to_outlives_its_context() {
    let mut registry = Registry::new();
    let device = Device::new(&mut registry, 0xD0).unwrap();
    let context = Context::new(&mut registry, &device, 0xC0);
    assert_eq!(context.release(&mut registry), vec![destroy_context(0xD0, 0xC0)]);
    assert_eq!(device.release(&mut registry), vec![close_device(0xD0)]);
}

#[test]
fn a_device_is_closed_only_when_no_other_context_remains() {
    let mut registry = Registry::new();
    let device = Device::new(&mut registry, 0xD0).unwrap();
    let first = Context::new(&mut registry, &device, 0xC1);
    let second = Context::new(&mut registry, &device, 0xC2);
    assert_eq!(device.release(&mut registry), vec![]);
    assert_eq!(first.release(&mut registry), vec![destroy_context(0xD0, 0xC1)]);
    assert_eq!(
        second.release(&mut registry),
        vec![destroy_context(0xD0, 0xC2), close_device(0xD0)]
    );
}

#[test]
fn a_buffer_keeps_its_context_alive() {
    let mut registry = Registry::new();
    let device = Device::new(&mut registry, 0xD0).unwrap();
    let context = Context::new(&mut registry, &device, 0xC0);
    let buffer = Buffer::new(&mut registry, &context, 5);
    assert_eq!(device.release(&mut registry), vec![]);
    assert_eq!(context.release(&mut registry), vec![]);
    assert_eq!(
        buffer.release(&mut registry),
        vec![delete_buffer(0xC0, 5), destroy_context(0xD0, 0xC0), close_device(0xD0)]
    );
}

#[test]
fn a_source_keeps_its_context_alive() {
    let mut registry = Registry::new();
    let device = Device::new(&mut registry, 0xD0).unwrap();
    let context = Context::new(&mut registry, &device, 0xC0);
    let source = Source::new(&mut registry, &context, 8);
    assert_eq!(context.release(&mut registry), vec![]);
    assert_eq!(
        source.release(&mut registry),
        vec![delete_source(0xC0, 8), destroy_context(0xD0, 0xC0)]
    );
    assert_eq!(device.release(&mut registry), vec![close_device(0xD0)]);
}

#[test]
fn a_context_goes_with_the_last_of_its_buffers_and_sources() {
    let mut registry = Registry::new();
    let device = Device::new(&mut registry, 0xD0).unwrap();
    let context = Context::new(&mut registry, &device, 0xC0);
    let first = Buffer::new(&mut registry, &context, 1);
    let second = Buffer::new(&mut registry, &context, 2);
    let source = Source::new(&mut registry, &context, 1);
    assert_eq!(device.release(&mut registry), vec![]);
    assert_eq!(context.release(&mut registry), vec![]);
    assert_eq!(first.release(&mut registry), vec![delete_buffer(0xC0, 1)]);
    assert_eq!(source.release(&mut registry), vec![delete_source(0xC0, 1)]);
    assert_eq!(
        second.release(&mut registry),
        vec![delete_buffer(0xC0, 2), destroy_context(0xD0, 0xC0), close_device(0xD0)]
    );
}

#[test]
fn a_buffer_released_under_a_live_context_is_only_deleted() {
    let mut registry = Registry::new();
    let device = Device::new(&mut registry, 0xD0).unwrap();
    let context = Context::new(&mut registry, &device, 0xC0);
    let buffer = Buffer::new(&mut registry, &context, 5);
    assert_eq!(buffer.release(&mut registry), vec![delete_buffer(0xC0, 5)]);
    let again = Buffer::new(&mut registry, &context, 6);
    assert_eq!(again.release(&mut registry), vec![delete_buffer(0xC0, 6)]);
    assert_eq!(context.release(&mut registry), vec![destroy_context(0xD0, 0xC0)]);
    assert_eq!(device.release(&mut registry), vec![close_device(0xD0)]);
}

#[test]
fn a_shared_context_is_destroyed_with_its_last_reference() {
    let mut registry = Registry::new();
    let device = Device::new(&mut registry, 0xD0).unwrap();
    let context = Context::new(&mut registry, &device, 0xC0);
    assert!(context.can_share(&registry));
    let other = context.share(&mut registry);
    assert_eq!(other, context);
    assert_eq!(context.release(&mut registry), vec![]);
    assert_eq!(other.release(&mut registry), vec![destroy_context(0xD0, 0xC0)]);
    assert_eq!(device.release(&mut registry), vec![close_device(0xD0)]);
}

#[test]
fn two_devices_are_torn_down_apart() {
    let mut registry = Registry::new();
    let first = Device::new(&mut registry, 0xD1).unwrap();
    let second = Device::new(&mut registry, 0xD2).unwrap();
    let on_first = Context::new(&mut registry, &first, 0xC1);
    let on_second = Context::new(&mut registry, &second, 0xC2);
    assert_eq!(first.release(&mut registry), vec![]);
    assert_eq!(
        on_first.release(&mut registry),
        vec![destroy_context(0xD1, 0xC1), close_device(0xD1)]
    );
    assert_eq!(on_second.release(&mut registry), vec![destroy_context(0xD2, 0xC2)]);
    assert_eq!(second.release(&mut registry), vec![close_device(0xD2)]);
}

#[test]
fn slots_are_taken_again_after_a_release() {
    let mut registry = Registry::new();
    let device = Device::new(&mut registry, 0xD0).unwrap();
    let context = Context::new(&mut registry, &device, 0xC0);
    for name in 1..100u32 {
        let buffer = Buffer::new(&mut registry, &context, name);
        let source = Source::new(&mut registry, &context, name);
        assert_eq!(buffer.release(&mut registry), vec![delete_buffer(0xC0, name)]);
        assert_eq!(source.release(&mut registry), vec![delete_source(0xC0, name)]);
    }
    assert_eq!(context.release(&mut registry), vec![destroy_context(0xD0, 0xC0)]);
    assert_eq!(device.release(&mut registry), vec![close_device(0xD0)]);
}

#[test]
fn the_registry_knows_what_is_on_record() {
    let mut registry = Registry::new();
    assert!(!registry.has_device(0xD0));
    let device = Device::new(&mut registry, 0xD0).unwrap();
    assert!(registry.has_device(0xD0));
    assert!(!registry.has_device(0xD1));
    assert!(!registry.has_context(0xC0));
    let context = Context::new(&mut registry, &device, 0xC0);
    let sibling = Context::new(&mut registry, &device, 0xC1);
    assert!(registry.has_context(0xC0));
    assert!(registry.has_context(0xC1));
    assert!(!registry.has_buffer(&context, 3));
    assert!(!registry.has_source(&context, 3));
    let buffer = Buffer::new(&mut registry, &context, 3);
    // Buffers are named per device, sources per context.
    assert!(registry.has_buffer(&context, 3));
    assert!(registry.has_buffer(&sibling, 3));
    assert!(!registry.has_buffer(&context, 4));
    assert!(!registry.has_source(&context, 3));
    let source = Source::new(&mut registry, &context, 3);
    assert!(registry.has_source(&context, 3));
    assert!(!registry.has_source(&sibling, 3));
    assert_eq!(buffer.release(&mut registry), vec![delete_buffer(0xC0, 3)]);
    assert_eq!(source.release(&mut registry), vec![delete_source(0xC0, 3)]);
    assert!(!registry.has_buffer(&context, 3));
    assert!(!registry.has_source(&context, 3));
    assert_eq!(sibling.release(&mut registry), vec![destroy_context(0xD0, 0xC1)]);
    assert!(!registry.has_context(0xC1));
    assert!(registry.has_context(0xC0));
    assert_eq!(context.release(&mut registry), vec![destroy_context(0xD0, 0xC0)]);
    assert_eq!(device.release(&mut registry), vec![close_device(0xD0)]);
    assert!(!registry.has_device(0xD0));
}

#[test]
fn a_device_on_a_second_registry_is_a_device_of_its_own() {
    let mut first = Registry::new();
    let mut second = Registry::new();
    let one = Device::new(&mut first, 0xD0).unwrap();
    let other = Device::new(&mut second, 0xD1).unwrap();
    assert!(!first.has_device(0xD1));
    assert!(!second.has_device(0xD0));
    assert_eq!(one.release(&mut first), vec![close_device(0xD0)]);
    assert_eq!(other.release(&mut second), vec![close_device(0xD1)]);
}

#[test]
fn a_registry_holds_what_it_recorded_and_nothing_else() {
    let mut registry = Registry::new();
    let mut other = Registry::new();
    let device = Device::new(&mut registry, 0xD0).unwrap();
    let context = Context::new(&mut registry, &device, 0xC0);
    let buffer = Buffer::new(&mut registry, &context, 1);
    let source = Source::new(&mut registry, &context, 2);
    assert!(registry.holds_device(&device));
    assert!(registry.holds_context(&context));
    assert!(registry.holds_buffer(&buffer));
    assert!(registry.holds_source(&source));
    assert!(!other.holds_device(&device));
    assert!(!other.holds_context(&context));
    assert!(!other.holds_buffer(&buffer));
    assert!(!other.holds_source(&source));
    let stranger = Device::new(&mut other, 0xD1).unwrap();
    assert!(!registry.holds_device(&stranger));
    assert!(other.holds_device(&stranger));
    assert_eq!(stranger.release(&mut other), vec![close_device(0xD1)]);
    assert_eq!(buffer.release(&mut registry), vec![delete_buffer(0xC0, 1)]);
    assert!(registry.holds_source(&source));
    assert_eq!(source.release(&mut registry), vec![delete_source(0xC0, 2)]);
    assert!(registry.holds_context(&context));
    assert_eq!(context.release(&mut registry), vec![destroy_context(0xD0, 0xC0)]);
    assert!(registry.holds_device(&device));
    assert_eq!(device.release(&mut registry), vec![close_device(0xD0)]);
}

#[test]
fn a_new_context_has_the_default_distance_model() {
    let mut registry = Registry::new();
    let device = Device::new(&mut registry, 0xD0).unwrap();
    let context = Context::new(&mut registry, &device, 0xC0);
    assert_eq!(context.get_distance_model(&registry), DistanceModel::InverseClamped);
}

#[test]
fn the_distance_model_is_shared_by_all_references() {
    let mut registry = Registry::new();
    let device = Device::new(&mut registry, 0xD0).unwrap();
    let context = Context::new(&mut registry, &device, 0xC0);
    let other = context.share(&mut registry);
    let elsewhere = Context::new(&mut registry, &device, 0xC1);
    context.set_distance_model(&mut registry, DistanceModel::Linear);
    assert_eq!(context.get_distance_model(&registry), DistanceModel::Linear);
    assert_eq!(other.get_distance_model(&registry), DistanceModel::Linear);
    assert_eq!(elsewhere.get_distance_model(&registry), DistanceModel::InverseClamped);
}
