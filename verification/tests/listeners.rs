use allen::{
    Channel, Check, Context, Device, Listener, ListenerParam, NativeCall, Operation, Orientation,
    Raw, Registry, Shape, Value,
};

fn a_context(registry: &mut Registry) -> Context {
    let device = Device::new(registry, 0xD0).unwrap();
    Context::new(registry, &device, 0xC0)
}

fn read(param: i32, channel: Channel, shape: Shape) -> Operation {
    Operation {
        context: Some(0xC0),
        gate: None,
        setup: None,
        call: NativeCall::ListenerGet { param, channel },
        check: Check::Al,
        shape,
    }
}

fn write(param: i32, value: Raw) -> Operation {
    Operation {
        context: Some(0xC0),
        gate: None,
        setup: None,
        call: NativeCall::ListenerSet { param, value },
        check: Check::Al,
        shape: Shape::Unit,
    }
}

#[test]
fn the_listener_works_under_its_context() {
    let mut registry = Registry::new();
    let context = a_context(&mut registry);
    let listener = context.listener();
    assert_eq!(listener.gain().context, Some(0xC0));
    let listener = Listener::new(&context);
    assert_eq!(listener.gain().context, Some(0xC0));
}

#[test]
fn the_gain_is_a_float() {
    let mut registry = Registry::new();
    let context = a_context(&mut registry);
    let listener = context.listener();
    let bits = 0.25f32.to_bits();
    assert_eq!(listener.gain(), read(0x100A, Channel::Float, Shape::Float));
    assert_eq!(listener.set_gain(bits), write(0x100A, Raw::Float(bits)));
}

#[test]
fn position_and_velocity_are_vectors() {
    let mut registry = Registry::new();
    let context = a_context(&mut registry);
    let listener = context.listener();
    let bits = [1.0f32.to_bits(), 0.0f32.to_bits(), (-1.0f32).to_bits()];
    assert_eq!(listener.position(), read(0x1004, Channel::Float3, Shape::Float3));
    assert_eq!(listener.set_position(bits), write(0x1004, Raw::Float3(bits)));
    assert_eq!(listener.velocity(), read(0x1006, Channel::Float3, Shape::Float3));
    assert_eq!(listener.set_velocity(bits), write(0x1006, Raw::Float3(bits)));
}

#[test]
fn the_orientation_is_six_floats() {
    let mut registry = Registry::new();
    let context = a_context(&mut registry);
    let listener = context.listener();
    let orientation = Orientation { up: [1, 2, 3], at: [4, 5, 6] };
    assert_eq!(listener.orientation(), read(0x100F, Channel::Float6, Shape::Orientation));
    assert_eq!(
        listener.set_orientation(orientation),
        write(0x100F, Raw::Float6([1, 2, 3, 4, 5, 6]))
    );
}

#[test]
fn the_typed_accessors_are_the_general_ones() {
    let mut registry = Registry::new();
    let context = a_context(&mut registry);
    let listener = context.listener();
    assert_eq!(listener.get(ListenerParam::Gain), listener.gain());
    assert_eq!(listener.get(ListenerParam::Position), listener.position());
    assert_eq!(listener.get(ListenerParam::Velocity), listener.velocity());
    assert_eq!(listener.get(ListenerParam::Orientation), listener.orientation());
    assert_eq!(listener.set(ListenerParam::Gain, Value::Float(3)), listener.set_gain(3));
    assert!(ListenerParam::Gain.describe().accepts(&Value::Float(3)));
    assert!(!ListenerParam::Gain.describe().accepts(&Value::Float3([3, 3, 3])));
}
