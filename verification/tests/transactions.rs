use allen::{
    Acquisition, Action, AllenError, AllenResult, Capability, Check, ContextManager, Event, Guard,
    NativeCall, Operation, Raw, Shape, SourceState, Transaction, Value, is_extension_present,
};

#[derive(Debug, PartialEq)]
enum Step {
    Acquire(u64),
    Call(NativeCall),
    Release(u64),
}

/// A guard for the context, from a manager with thread-scoped currency.
fn guard(context: u64) -> Guard {
    let mut manager = ContextManager::new();
    manager.record_probe(&Raw::Flag(1));
    match manager.acquire_current(context) {
        Acquisition::Granted(grant) => grant.confirm(&Raw::Flag(1)),
        other => panic!("not granted: {:?}", other),
    }
}

/// Carries the operation out against an engine that gives the scripted
/// answers, and returns what was asked of it, in order, with the outcome.
fn run(op: Operation, answers: Vec<Raw>) -> (Vec<Step>, AllenResult<Value>) {
    let mut answers = answers.into_iter();
    let mut asked = Vec::new();
    let mut transaction = Transaction::begin(op);
    let mut event = Event::Start;
    loop {
        assert!(transaction.accepts(&event));
        let (next, action) = transaction.step(event);
        transaction = next;
        event = match action {
            Action::Finish(outcome) => {
                assert!(transaction.is_done());
                assert!(answers.next().is_none());
                return (asked, outcome);
            }
            Action::Acquire { context } => {
                asked.push(Step::Acquire(context));
                Event::Acquired(guard(context))
            }
            Action::Release(guard) => {
                asked.push(Step::Release(guard.context()));
                Event::Released
            }
            Action::Perform(call) => {
                asked.push(Step::Call(call));
                Event::Answer(answers.next().unwrap())
            }
        };
        assert!(!transaction.is_done());
    }
}

fn checked(call: NativeCall, shape: Shape) -> Operation {
    Operation { context: Some(0xC0), gate: None, setup: None, call, check: Check::Al, shape }
}

fn gated(capability: Capability) -> Operation {
    Operation {
        context: Some(0xC0),
        gate: Some(capability),
        setup: None,
        call: NativeCall::BufferData { buffer: 3, format: 0x10010, size: 16, sample_rate: 44100 },
        check: Check::Al,
        shape: Shape::Unit,
    }
}

fn presence_query(name: &str) -> Step {
    Step::Call(NativeCall::IsExtensionPresent { name: String::from(name) })
}

#[test]
fn a_checked_operation_acquires_calls_checks_and_releases() {
    let (asked, outcome) =
        run(checked(NativeCall::GenBuffer, Shape::Name), vec![Raw::Name(7), Raw::Int(0)]);
    assert_eq!(
        asked,
        vec![
            Step::Acquire(0xC0),
            Step::Call(NativeCall::GenBuffer),
            Step::Call(NativeCall::GetError),
            Step::Release(0xC0),
        ]
    );
    assert_eq!(outcome, Ok(Value::Name(7)));
}

#[test]
fn a_native_error_is_the_outcome_and_the_context_is_still_released() {
    let (asked, outcome) =
        run(checked(NativeCall::GenSource, Shape::Name), vec![Raw::Name(0), Raw::Int(0xA005)]);
    assert_eq!(asked.last(), Some(&Step::Release(0xC0)));
    assert_eq!(outcome, Err(AllenError::OutOfMemory));
}

#[test]
fn an_answer_is_not_read_when_the_call_failed() {
    let op = checked(
        NativeCall::SourceGet { source: 1, param: 0x1010, channel: allen::Channel::Int },
        Shape::State,
    );
    let (_, outcome) = run(op, vec![Raw::Int(0), Raw::Int(0xA001)]);
    assert_eq!(outcome, Err(AllenError::InvalidName));
}

#[test]
fn a_state_is_read_from_the_integer_channel() {
    let op = checked(
        NativeCall::SourceGet { source: 1, param: 0x1010, channel: allen::Channel::Int },
        Shape::State,
    );
    let (_, outcome) = run(op, vec![Raw::Int(0x1012), Raw::Int(0)]);
    assert_eq!(outcome, Ok(Value::State(SourceState::Playing)));
}

#[test]
fn a_state_outside_the_domain_is_not_accepted() {
    let op = checked(
        NativeCall::SourceGet { source: 1, param: 0x1010, channel: allen::Channel::Int },
        Shape::State,
    );
    let transaction = Transaction::begin(op);
    let (transaction, _) = transaction.step(Event::Start);
    let (transaction, _) = transaction.step(Event::Acquired(guard(0xC0)));
    let (transaction, action) = transaction.step(Event::Answer(Raw::Int(99)));
    assert_eq!(action, Action::Perform(NativeCall::GetError));
    assert!(!transaction.accepts(&Event::Answer(Raw::Int(0))));
    assert!(transaction.accepts(&Event::Answer(Raw::Int(0xA003))));
}

#[test]
fn an_absent_capability_ends_in_missing_extension_before_the_call() {
    let (asked, outcome) = run(gated(Capability::Float32), vec![Raw::Flag(0), Raw::Int(0)]);
    assert_eq!(
        asked,
        vec![
            Step::Acquire(0xC0),
            presence_query("AL_EXT_float32"),
            Step::Call(NativeCall::GetError),
            Step::Release(0xC0),
        ]
    );
    assert_eq!(outcome, Err(AllenError::MissingExtension(String::from("AL_EXT_float32"))));
}

#[test]
fn a_missing_capability_is_named_whichever_it_is() {
    let (_, outcome) = run(gated(Capability::Double), vec![Raw::Flag(0), Raw::Int(0)]);
    assert_eq!(outcome, Err(AllenError::MissingExtension(String::from("AL_double"))));
    let (_, outcome) = run(gated(Capability::SourceLength), vec![Raw::Flag(0), Raw::Int(0)]);
    assert_eq!(outcome, Err(AllenError::MissingExtension(String::from("AL_SOFT_source_length"))));
    let (_, outcome) = run(gated(Capability::SourceRadius), vec![Raw::Flag(0), Raw::Int(0)]);
    assert_eq!(outcome, Err(AllenError::MissingExtension(String::from("AL_EXT_SOURCE_RADIUS"))));
}

#[test]
fn a_present_capability_lets_the_call_through() {
    let (asked, outcome) = run(
        gated(Capability::Float32),
        vec![Raw::Flag(1), Raw::Int(0), Raw::Nothing, Raw::Int(0)],
    );
    assert_eq!(
        asked,
        vec![
            Step::Acquire(0xC0),
            presence_query("AL_EXT_float32"),
            Step::Call(NativeCall::GetError),
            Step::Call(NativeCall::BufferData {
                buffer: 3,
                format: 0x10010,
                size: 16,
                sample_rate: 44100
            }),
            Step::Call(NativeCall::GetError),
            Step::Release(0xC0),
        ]
    );
    assert_eq!(outcome, Ok(Value::Unit));
}

#[test]
fn a_failed_presence_query_ends_in_its_error_before_the_call() {
    let (asked, outcome) = run(gated(Capability::Float32), vec![Raw::Flag(1), Raw::Int(0xA004)]);
    assert_eq!(asked.len(), 4);
    assert_eq!(outcome, Err(AllenError::InvalidOperation));
}

#[test]
fn a_preparing_call_comes_first_and_is_checked() {
    let op = Operation {
        setup: Some(NativeCall::DistanceModel { model: 0xD002 }),
        ..checked(NativeCall::SourcePlay { source: 2 }, Shape::Unit)
    };
    let (asked, outcome) =
        run(op, vec![Raw::Nothing, Raw::Int(0), Raw::Nothing, Raw::Int(0)]);
    assert_eq!(
        asked,
        vec![
            Step::Acquire(0xC0),
            Step::Call(NativeCall::DistanceModel { model: 0xD002 }),
            Step::Call(NativeCall::GetError),
            Step::Call(NativeCall::SourcePlay { source: 2 }),
            Step::Call(NativeCall::GetError),
            Step::Release(0xC0),
        ]
    );
    assert_eq!(outcome, Ok(Value::Unit));
}

#[test]
fn a_preparing_call_that_fails_ends_the_operation() {
    let op = Operation {
        setup: Some(NativeCall::DistanceModel { model: 7 }),
        ..checked(NativeCall::SourcePlay { source: 2 }, Shape::Unit)
    };
    let (asked, outcome) = run(op, vec![Raw::Nothing, Raw::Int(0xA002)]);
    assert_eq!(asked.len(), 4);
    assert_eq!(asked.last(), Some(&Step::Release(0xC0)));
    assert_eq!(outcome, Err(AllenError::InvalidEnum));
}

#[test]
fn a_preparing_call_comes_before_the_gate() {
    let op = Operation {
        setup: Some(NativeCall::DistanceModel { model: 0xD002 }),
        ..gated(Capability::Float32)
    };
    let (asked, outcome) = run(op, vec![Raw::Nothing, Raw::Int(0), Raw::Flag(0), Raw::Int(0)]);
    assert_eq!(
        asked,
        vec![
            Step::Acquire(0xC0),
            Step::Call(NativeCall::DistanceModel { model: 0xD002 }),
            Step::Call(NativeCall::GetError),
            presence_query("AL_EXT_float32"),
            Step::Call(NativeCall::GetError),
            Step::Release(0xC0),
        ]
    );
    assert_eq!(outcome, Err(AllenError::MissingExtension(String::from("AL_EXT_float32"))));
}

#[test]
fn an_operation_without_a_context_neither_acquires_nor_releases() {
    let (asked, outcome) =
        run(is_extension_present("AL_EXT_EFX"), vec![Raw::Flag(1), Raw::Int(0)]);
    assert_eq!(
        asked,
        vec![
            Step::Call(NativeCall::IsExtensionPresent { name: String::from("AL_EXT_EFX") }),
            Step::Call(NativeCall::GetError),
        ]
    );
    assert_eq!(outcome, Ok(Value::Bool(true)));
}

#[test]
fn an_unchecked_operation_asks_for_no_error() {
    let op = Operation {
        context: Some(5),
        gate: None,
        setup: None,
        call: NativeCall::GetString { param: 0xB001 },
        check: Check::Unchecked,
        shape: Shape::Text,
    };
    let (asked, outcome) = run(op, vec![Raw::Text(String::from("OpenAL Community"))]);
    assert_eq!(
        asked,
        vec![
            Step::Acquire(5),
            Step::Call(NativeCall::GetString { param: 0xB001 }),
            Step::Release(5),
        ]
    );
    assert_eq!(outcome, Ok(Value::Text(String::from("OpenAL Community"))));
}

#[test]
fn a_device_checked_operation_asks_the_device_for_its_error() {
    let op = Operation {
        context: None,
        gate: None,
        setup: None,
        call: NativeCall::AlcIsExtensionPresent { device: 9, name: String::from("ALC_EXT_EFX") },
        check: Check::Alc { device: 9 },
        shape: Shape::Flag,
    };
    let (asked, outcome) = run(op, vec![Raw::Flag(0), Raw::Int(0xA001)]);
    assert_eq!(asked[1], Step::Call(NativeCall::AlcGetError { device: 9 }));
    assert_eq!(outcome, Err(AllenError::InvalidDevice));
}

fn create_context() -> Operation {
    Operation {
        context: None,
        gate: None,
        setup: None,
        call: NativeCall::CreateContext { device: 9 },
        check: Check::AlcIfNull { device: 9 },
        shape: Shape::Pointer,
    }
}

#[test]
fn a_created_pointer_is_the_outcome_with_no_error_query() {
    let (asked, outcome) = run(create_context(), vec![Raw::Pointer(0x7000)]);
    assert_eq!(asked, vec![Step::Call(NativeCall::CreateContext { device: 9 })]);
    assert_eq!(outcome, Ok(Value::Pointer(0x7000)));
}

#[test]
fn a_null_pointer_is_followed_by_the_device_error() {
    let (asked, outcome) = run(create_context(), vec![Raw::Pointer(0), Raw::Int(0xA004)]);
    assert_eq!(
        asked,
        vec![
            Step::Call(NativeCall::CreateContext { device: 9 }),
            Step::Call(NativeCall::AlcGetError { device: 9 }),
        ]
    );
    assert_eq!(outcome, Err(AllenError::InvalidValue));
}

#[test]
fn a_null_pointer_with_a_clear_error_is_not_accepted() {
    let transaction = Transaction::begin(create_context());
    let (transaction, _) = transaction.step(Event::Start);
    let (transaction, _) = transaction.step(Event::Answer(Raw::Pointer(0)));
    assert!(!transaction.accepts(&Event::Answer(Raw::Int(0))));
    assert!(transaction.accepts(&Event::Answer(Raw::Int(0xA005))));
}

#[test]
fn only_the_awaited_event_is_accepted() {
    let transaction = Transaction::begin(checked(NativeCall::GenBuffer, Shape::Name));
    assert!(transaction.accepts(&Event::Start));
    assert!(!transaction.accepts(&Event::Acquired(guard(0xC0))));
    assert!(!transaction.accepts(&Event::Released));
    assert!(!transaction.accepts(&Event::Answer(Raw::Int(0))));
    let (transaction, _) = transaction.step(Event::Start);
    assert!(transaction.accepts(&Event::Acquired(guard(0xC0))));
    assert!(!transaction.accepts(&Event::Acquired(guard(0xC1))));
    assert!(!transaction.accepts(&Event::Start));
    let (transaction, _) = transaction.step(Event::Acquired(guard(0xC0)));
    assert!(transaction.accepts(&Event::Answer(Raw::Name(1))));
    assert!(!transaction.accepts(&Event::Answer(Raw::Int(1))));
    assert!(!transaction.accepts(&Event::Answer(Raw::Nothing)));
    let (transaction, _) = transaction.step(Event::Answer(Raw::Name(1)));
    assert!(transaction.accepts(&Event::Answer(Raw::Int(0))));
    assert!(!transaction.accepts(&Event::Answer(Raw::Name(0))));
    let (transaction, _) = transaction.step(Event::Answer(Raw::Int(0)));
    assert!(transaction.accepts(&Event::Released));
    assert!(!transaction.accepts(&Event::Answer(Raw::Int(0))));
    let (transaction, action) = transaction.step(Event::Released);
    assert_eq!(action, Action::Finish(Ok(Value::Name(1))));
    assert!(transaction.is_done());
    assert!(!transaction.accepts(&Event::Start));
    assert!(!transaction.accepts(&Event::Released));
}

#[test]
fn an_unknown_native_code_is_kept() {
    let (_, outcome) =
        run(checked(NativeCall::GenBuffer, Shape::Name), vec![Raw::Name(0), Raw::Int(12345)]);
    assert_eq!(outcome, Err(AllenError::Unknown(12345)));
}
