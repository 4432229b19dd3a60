use allen::{
    Acquisition, Action, AllenError, AllenResult, Check, Context, ContextManager, Device, Event,
    Guard, NativeCall, Operation, Raw, Registry, Shape, Transaction, Value, is_extension_present,
};

#[derive(Debug, PartialEq)]
enum Step {
    Acquire(u64),
    Call(NativeCall),
    Release(u64),
}

/// A guard for the context, from a manager with thread-scoped currency.
fn guard(context: u64) -> Guard {
    let mut manager = ContextManager::new();
    manager.record_probe(&Raw::Flag(1));
    match manager.acquire_current(context) {
        Acquisition::Granted(grant) => grant.confirm(&Raw::Flag(1)),
        other => panic!("not granted: {:?}", other),
    }
}

/// Carries the operation out against an engine that gives the scripted
/// answers, and returns what was asked of it, in order, with the outcome.
fn run(op: Operation, answers: Vec<Raw>) -> (Vec<Step>, AllenResult<Value>) {
    let mut answers = answers.into_iter();
    let mut asked = Vec::new();
    let mut transaction = Transaction::begin(op);
    let mut event = Event::Start;
    loop {
        assert!(transaction.accepts(&event));
        let (next, action) = transaction.step(event);
        transaction = next;
        event = match action {
            Action::Finish(outcome) => {
                assert!(transaction.is_done());
                assert!(answers.next().is_none());
                return (asked, outcome);
            }
            Action::Acquire { context } => {
                asked.push(Step::Acquire(context));
                Event::Acquired(guard(context))
            }
            Action::Release(guard) => {
                asked.push(Step::Release(guard.context()));
                Event::Released
            }
            Action::Perform(call) => {
                asked.push(Step::Call(call));
                Event::Answer(answers.next().unwrap())
            }
        };
        assert!(!transaction.is_done());
    }
}

fn plain(call: NativeCall, check: Check, shape: Shape) -> Operation {
    Operation { context: None, gate: None, setup: None, call, check, shape }
}

#[test]
fn opening_asks_for_the_named_device_or_the_default_one() {
    assert_eq!(
        Device::open(None),
        plain(NativeCall::OpenDevice { specifier: None }, Check::Unchecked, Shape::Pointer)
    );
    assert_eq!(
        Device::open(Some("OpenAL Soft")),
        plain(
            NativeCall::OpenDevice { specifier: Some(String::from("OpenAL Soft")) },
            Check::Unchecked,
            Shape::Pointer
        )
    );
}

#[test]
fn a_device_that_did_not_open_is_none() {
    let mut registry = Registry::new();
    let (_, outcome) = run(Device::open(None), vec![Raw::Pointer(0)]);
    assert_eq!(outcome, Ok(Value::Pointer(0)));
    assert_eq!(Device::new(&mut registry, 0), None);
    let (_, outcome) = run(Device::open(None), vec![Raw::Pointer(0xD0)]);
    assert_eq!(outcome, Ok(Value::Pointer(0xD0)));
    let device = Device::new(&mut registry, 0xD0).unwrap();
    assert_eq!(device.handle(), 0xD0);
}

#[test]
fn the_device_name_is_a_text() {
    let mut registry = Registry::new();
    let device = Device::new(&mut registry, 0xD0).unwrap();
    let op = device.device_name();
    assert_eq!(
        op,
        plain(NativeCall::DeviceName { device: 0xD0 }, Check::Unchecked, Shape::Text)
    );
    let (_, outcome) = run(op, vec![Raw::Text(String::from("Speakers"))]);
    assert_eq!(outcome, Ok(Value::Text(String::from("Speakers"))));
}

#[test]
fn a_context_is_created_or_the_device_says_why_not() {
    let mut registry = Registry::new();
    let device = Device::new(&mut registry, 0xD0).unwrap();
    let op = device.create_context();
    assert_eq!(
        op,
        plain(
            NativeCall::CreateContext { device: 0xD0 },
            Check::AlcIfNull { device: 0xD0 },
            Shape::Pointer
        )
    );
    let (_, outcome) = run(op, vec![Raw::Pointer(0xC0)]);
    assert_eq!(outcome, Ok(Value::Pointer(0xC0)));
    let context = Context::new(&mut registry, &device, 0xC0);
    assert_eq!(context.handle(), 0xC0);
    let (_, outcome) = run(device.create_context(), vec![Raw::Pointer(0), Raw::Int(0xA001)]);
    assert_eq!(outcome, Err(AllenError::InvalidDevice));
}

#[test]
fn the_device_and_the_global_presence_query_agree() {
    let mut registry = Registry::new();
    let device = Device::new(&mut registry, 0xD0).unwrap();
    for flag in [0i8, 1, -1, 7] {
        let scoped = device.is_extension_present("ALC_EXT_thread_local_context");
        assert_eq!(
            scoped,
            plain(
                NativeCall::AlcIsExtensionPresent {
                    device: 0xD0,
                    name: String::from("ALC_EXT_thread_local_context")
                },
                Check::Alc { device: 0xD0 },
                Shape::Flag
            )
        );
        let global = is_extension_present("ALC_EXT_thread_local_context");
        let (_, from_device) = run(scoped, vec![Raw::Flag(flag), Raw::Int(0)]);
        let (_, from_global) = run(global, vec![Raw::Flag(flag), Raw::Int(0)]);
        assert_eq!(from_device, Ok(Value::Bool(flag != 0)));
        assert_eq!(from_device, from_global);
    }
}

#[test]
fn a_device_checks_for_an_extension_by_name() {
    let mut registry = Registry::new();
    let device = Device::new(&mut registry, 0xD0).unwrap();
    assert_eq!(device.check_alc_extension("ALC_EXT_EFX", Ok(true)), Ok(()));
    assert_eq!(
        device.check_alc_extension("ALC_EXT_EFX", Ok(false)),
        Err(AllenError::MissingExtension(String::from("ALC_EXT_EFX")))
    );
    assert_eq!(
        device.check_alc_extension("ALC_EXT_EFX", Err(AllenError::InvalidDevice)),
        Err(AllenError::InvalidDevice)
    );
}

#[test]
fn a_device_reads_its_own_error_codes() {
    let mut registry = Registry::new();
    let device = Device::new(&mut registry, 0xD0).unwrap();
    assert_eq!(device.check_alc_error(0), Ok(()));
    assert_eq!(device.check_alc_error(0xA001), Err(AllenError::InvalidDevice));
    assert_eq!(device.check_alc_error(0xA002), Err(AllenError::InvalidContext));
    assert_eq!(device.check_alc_error(1), Err(AllenError::Unknown(1)));
}

#[test]
fn the_descriptive_strings_are_asked_under_the_context() {
    let mut registry = Registry::new();
    let device = Device::new(&mut registry, 0xD0).unwrap();
    let context = Context::new(&mut registry, &device, 0xC0);
    let query = |param: i32| Operation {
        context: Some(0xC0),
        gate: None,
        setup: None,
        call: NativeCall::GetString { param },
        check: Check::Unchecked,
        shape: Shape::Text,
    };
    assert_eq!(context.vendor(), query(0xB001));
    assert_eq!(context.version(), query(0xB002));
    assert_eq!(context.renderer(), query(0xB003));
    assert_eq!(context.extensions(), query(0xB004));
    let (asked, outcome) = run(context.version(), vec![Raw::Text(String::from("1.1"))]);
    assert_eq!(asked.first(), Some(&Step::Acquire(0xC0)));
    assert_eq!(asked.last(), Some(&Step::Release(0xC0)));
    assert_eq!(outcome, Ok(Value::Text(String::from("1.1"))));
}

#[test]
fn buffers_and_sources_are_generated_under_the_context() {
    let mut registry = Registry::new();
    let device = Device::new(&mut registry, 0xD0).unwrap();
    let context = Context::new(&mut registry, &device, 0xC0);
    let generate = |call: NativeCall| Operation {
        context: Some(0xC0),
        gate: None,
        setup: None,
        call,
        check: Check::Al,
        shape: Shape::Name,
    };
    assert_eq!(context.new_buffer(), generate(NativeCall::GenBuffer));
    assert_eq!(context.new_source(), generate(NativeCall::GenSource));
    let (_, outcome) = run(context.new_buffer(), vec![Raw::Name(21), Raw::Int(0)]);
    assert_eq!(outcome, Ok(Value::Name(21)));
    let (_, outcome) = run(context.new_source(), vec![Raw::Name(0), Raw::Int(0xA005)]);
    assert_eq!(outcome, Err(AllenError::OutOfMemory));
}

#[test]
fn suspending_and_processing_are_checked_on_the_device() {
    let mut registry = Registry::new();
    let device = Device::new(&mut registry, 0xD0).unwrap();
    let context = Context::new(&mut registry, &device, 0xC0);
    let on_context = |call: NativeCall| Operation {
        context: Some(0xC0),
        gate: None,
        setup: None,
        call,
        check: Check::Alc { device: 0xD0 },
        shape: Shape::Unit,
    };
    assert_eq!(context.suspend(), on_context(NativeCall::SuspendContext { context: 0xC0 }));
    assert_eq!(context.process(), on_context(NativeCall::ProcessContext { context: 0xC0 }));
    let (asked, outcome) = run(context.suspend(), vec![Raw::Nothing, Raw::Int(0xA002)]);
    assert_eq!(asked[2], Step::Call(NativeCall::AlcGetError { device: 0xD0 }));
    assert_eq!(outcome, Err(AllenError::InvalidContext));
}
