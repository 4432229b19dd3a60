use allen::{Channel, Orientation, Raw, Shape, SourceState, Value};

fn round_trip(value: Value) {
    let shape = value.shape();
    let raw = value.clone().encode();
    assert!(shape.accepts(&raw));
    assert!(shape.can_decode(&raw));
    assert_eq!(shape.decode(raw), value);
}

#[test]
fn integers_round_trip_exactly() {
    round_trip(Value::Int(0));
    round_trip(Value::Int(-7));
    round_trip(Value::Int(i32::MAX));
    round_trip(Value::Int(i32::MIN));
    round_trip(Value::Int3([1, -2, 3]));
}

#[test]
fn booleans_round_trip_exactly() {
    round_trip(Value::Bool(true));
    round_trip(Value::Bool(false));
}

#[test]
fn states_round_trip_exactly() {
    round_trip(Value::State(SourceState::Initial));
    round_trip(Value::State(SourceState::Playing));
    round_trip(Value::State(SourceState::Paused));
    round_trip(Value::State(SourceState::Stopped));
}

#[test]
fn floats_round_trip_bit_for_bit() {
    round_trip(Value::Float(1.5f32.to_bits()));
    round_trip(Value::Float(f32::NAN.to_bits()));
    round_trip(Value::Float((-0.0f32).to_bits()));
    round_trip(Value::Float3([1.0f32.to_bits(), 2.0f32.to_bits(), 3.0f32.to_bits()]));
    round_trip(Value::Orientation(Orientation {
        up: [0.0f32.to_bits(), 1.0f32.to_bits(), 0.0f32.to_bits()],
        at: [0.0f32.to_bits(), 0.0f32.to_bits(), (-1.0f32).to_bits()],
    }));
}

#[test]
fn the_other_values_round_trip_too() {
    round_trip(Value::Unit);
    round_trip(Value::Name(17));
    round_trip(Value::Pointer(0xdead_beef));
    round_trip(Value::Text(String::from("OpenAL Soft")));
}

#[test]
fn a_boolean_travels_as_one_or_zero() {
    assert_eq!(Value::Bool(true).encode(), Raw::Int(1));
    assert_eq!(Value::Bool(false).encode(), Raw::Int(0));
}

#[test]
fn any_integer_but_zero_reads_as_true() {
    assert_eq!(Shape::Bool.decode(Raw::Int(0)), Value::Bool(false));
    assert_eq!(Shape::Bool.decode(Raw::Int(1)), Value::Bool(true));
    assert_eq!(Shape::Bool.decode(Raw::Int(-1)), Value::Bool(true));
    assert_eq!(Shape::Bool.decode(Raw::Int(42)), Value::Bool(true));
}

#[test]
fn any_native_boolean_but_zero_reads_as_true() {
    assert_eq!(Shape::Flag.decode(Raw::Flag(0)), Value::Bool(false));
    assert_eq!(Shape::Flag.decode(Raw::Flag(1)), Value::Bool(true));
    assert_eq!(Shape::Flag.decode(Raw::Flag(-1)), Value::Bool(true));
}

#[test]
fn a_state_travels_as_its_code() {
    assert_eq!(Value::State(SourceState::Paused).encode(), Raw::Int(0x1013));
    assert_eq!(Shape::State.decode(Raw::Int(0x1014)), Value::State(SourceState::Stopped));
}

#[test]
fn an_integer_outside_the_domain_cannot_be_read_as_a_state() {
    assert!(Shape::State.accepts(&Raw::Int(5)));
    assert!(!Shape::State.can_decode(&Raw::Int(5)));
    assert!(Shape::State.can_decode(&Raw::Int(0x1011)));
}

#[test]
fn an_orientation_travels_as_up_then_at() {
    let orientation = Orientation { up: [1, 2, 3], at: [4, 5, 6] };
    assert_eq!(Value::Orientation(orientation).encode(), Raw::Float6([1, 2, 3, 4, 5, 6]));
    assert_eq!(
        Shape::Orientation.decode(Raw::Float6([6, 5, 4, 3, 2, 1])),
        Value::Orientation(Orientation { up: [6, 5, 4], at: [3, 2, 1] })
    );
}

#[test]
fn a_shape_only_accepts_answers_of_its_form() {
    assert!(Shape::Int.accepts(&Raw::Int(1)));
    assert!(!Shape::Int.accepts(&Raw::Float(1)));
    assert!(!Shape::Float.accepts(&Raw::Int(1)));
    assert!(Shape::Unit.accepts(&Raw::Nothing));
    assert!(!Shape::Unit.accepts(&Raw::Int(0)));
    assert!(Shape::Text.accepts(&Raw::Text(String::new())));
    assert!(!Shape::Pointer.accepts(&Raw::Name(1)));
    assert!(Shape::Pointer.accepts(&Raw::Pointer(0)));
    assert!(!Shape::Flag.accepts(&Raw::Int(1)));
}

#[test]
fn shapes_of_parameters_have_their_channel() {
    assert_eq!(Shape::Bool.channel(), Some(Channel::Int));
    assert_eq!(Shape::Int.channel(), Some(Channel::Int));
    assert_eq!(Shape::State.channel(), Some(Channel::Int));
    assert_eq!(Shape::Int3.channel(), Some(Channel::Int3));
    assert_eq!(Shape::Float.channel(), Some(Channel::Float));
    assert_eq!(Shape::Float3.channel(), Some(Channel::Float3));
    assert_eq!(Shape::Orientation.channel(), Some(Channel::Float6));
    assert_eq!(Shape::Unit.channel(), None);
    assert_eq!(Shape::Text.channel(), None);
    assert_eq!(Shape::Flag.channel(), None);
}

#[test]
fn the_default_orientation_is_all_zero_bits() {
    assert_eq!(Orientation::default(), Orientation { up: [0, 0, 0], at: [0, 0, 0] });
}
