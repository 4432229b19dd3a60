use allen::{
    teardown_subject, teardown_warning, AllenError, Buffer, Check, Context, Device, NativeCall,
    Raw, Registry, Source, Subject, Value, Warning,
};

#[test]
fn a_teardown_plan_names_what_each_step_takes_away() {
    let mut registry = Registry::new();
    let device = Device::new(&mut registry, 0xD0).unwrap();
    let context = Context::new(&mut registry, &device, 0xC0);
    let buffer = Buffer::new(&mut registry, &context, 1);
    let source = Source::new(&mut registry, &context, 2);
    assert!(device.release(&mut registry).is_empty());
    assert!(context.release(&mut registry).is_empty());
    let plan = source.release(&mut registry);
    let subjects: Vec<_> = plan.iter().map(teardown_subject).collect();
    assert_eq!(subjects, vec![Some(Subject::Source)]);
    let plan = buffer.release(&mut registry);
    let subjects: Vec<_> = plan.iter().map(teardown_subject).collect();
    assert_eq!(
        subjects,
        vec![Some(Subject::Buffer), Some(Subject::Context), Some(Subject::Device)]
    );
}

#[test]
fn an_operation_that_takes_nothing_away_has_no_subject() {
    let mut registry = Registry::new();
    let device = Device::new(&mut registry, 0xD0).unwrap();
    let context = Context::new(&mut registry, &device, 0xC0);
    assert_eq!(teardown_subject(&context.new_buffer()), None);
    assert_eq!(teardown_subject(&device.create_context()), None);
    assert_eq!(teardown_subject(&context.vendor()), None);
}

#[test]
fn a_failed_teardown_is_a_warning_and_a_successful_one_is_none() {
    assert_eq!(teardown_warning(Subject::Buffer, Ok(Value::Unit)), None);
    assert_eq!(
        teardown_warning(Subject::Buffer, Err(AllenError::InvalidOperation)),
        Some(Warning { subject: Subject::Buffer, error: AllenError::InvalidOperation })
    );
    assert_eq!(
        teardown_warning(Subject::Context, Err(AllenError::InvalidContext)),
        Some(Warning { subject: Subject::Context, error: AllenError::InvalidContext })
    );
}

#[test]
fn a_check_knows_its_error_query() {
    assert_eq!(Check::Al.error_query(), NativeCall::GetError);
    assert_eq!(Check::Alc { device: 3 }.error_query(), NativeCall::AlcGetError { device: 3 });
    assert_eq!(
        Check::AlcIfNull { device: 4 }.error_query(),
        NativeCall::AlcGetError { device: 4 }
    );
}

#[test]
fn a_check_reads_codes_on_its_own_channel() {
    assert_eq!(Check::Al.read_error(0), Ok(()));
    assert_eq!(Check::Al.read_error(0xA001), Err(AllenError::InvalidName));
    assert_eq!(Check::Al.read_error(0xA004), Err(AllenError::InvalidOperation));
    assert_eq!(Check::Alc { device: 1 }.read_error(0xA001), Err(AllenError::InvalidDevice));
    assert_eq!(Check::Alc { device: 1 }.read_error(0xA004), Err(AllenError::InvalidValue));
    assert_eq!(Check::AlcIfNull { device: 1 }.read_error(0xA002), Err(AllenError::InvalidContext));
    assert_eq!(Check::AlcIfNull { device: 1 }.read_error(0), Ok(()));
}

#[test]
fn only_some_answers_settle_an_operation_at_once() {
    assert!(Check::Unchecked.is_settled_by(&Raw::Nothing));
    assert!(Check::Unchecked.is_settled_by(&Raw::Pointer(0)));
    assert!(!Check::Al.is_settled_by(&Raw::Nothing));
    assert!(!Check::Alc { device: 1 }.is_settled_by(&Raw::Flag(1)));
    assert!(Check::AlcIfNull { device: 1 }.is_settled_by(&Raw::Pointer(8)));
    assert!(!Check::AlcIfNull { device: 1 }.is_settled_by(&Raw::Pointer(0)));
}
