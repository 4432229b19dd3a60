use allen::{Acquisition, Context, ContextManager, Device, Grant, NativeCall, Raw, Registry, Scope};

fn two_contexts(registry: &mut Registry) -> (Device, Context, Context) {
    let device = Device::new(registry, 0xD0).unwrap();
    let first = Context::new(registry, &device, 0xC1);
    let second = Context::new(registry, &device, 0xC2);
    (device, first, second)
}

fn granted(answer: Acquisition) -> Grant {
    match answer {
        Acquisition::Granted(grant) => grant,
        other => panic!("not granted: {:?}", other),
    }
}

#[test]
fn nothing_is_granted_before_the_probe() {
    let mut registry = Registry::new();
    let (_device, first, _second) = two_contexts(&mut registry);
    let mut manager = ContextManager::new();
    assert!(manager.needs_probe());
    assert_eq!(first.make_current(&mut manager), Acquisition::Unprobed);
    assert_eq!(manager.current_query(), NativeCall::ProbeThreadContext);
}

#[test]
fn the_first_probe_is_remembered() {
    let mut manager = ContextManager::new();
    assert_eq!(manager.probed_scope(), None);
    manager.record_probe(&Raw::Flag(1));
    assert!(!manager.needs_probe());
    manager.record_probe(&Raw::Flag(0));
    assert_eq!(manager.probed_scope(), Some(Scope::Thread));
    assert_eq!(manager.current_query(), NativeCall::GetThreadContext);
    let mut manager = ContextManager::new();
    manager.record_probe(&Raw::Flag(0));
    manager.record_probe(&Raw::Flag(1));
    assert_eq!(manager.probed_scope(), Some(Scope::Process));
    assert_eq!(manager.current_query(), NativeCall::GetCurrentContext);
}

#[test]
fn only_a_true_flag_makes_currency_thread_scoped() {
    for (answer, query) in [
        (Raw::Flag(1), NativeCall::GetThreadContext),
        (Raw::Flag(-1), NativeCall::GetThreadContext),
        (Raw::Flag(0), NativeCall::GetCurrentContext),
        (Raw::Pointer(1), NativeCall::GetCurrentContext),
        (Raw::Nothing, NativeCall::GetCurrentContext),
    ] {
        let mut manager = ContextManager::new();
        manager.record_probe(&answer);
        assert_eq!(manager.current_query(), query);
    }
}

#[test]
fn thread_scoped_requests_are_all_granted() {
    let mut registry = Registry::new();
    let (_device, first, second) = two_contexts(&mut registry);
    let mut manager = ContextManager::new();
    manager.record_probe(&Raw::Flag(1));
    let first_grant = granted(first.make_current(&mut manager));
    let second_grant = granted(second.make_current(&mut manager));
    assert_eq!(first_grant.call(), NativeCall::SetThreadContext { context: 0xC1 });
    assert_eq!(second_grant.call(), NativeCall::SetThreadContext { context: 0xC2 });
    let first_guard = first_grant.confirm(&Raw::Flag(1));
    let second_guard = second_grant.confirm(&Raw::Flag(1));
    assert!(manager.is_held(&first_guard));
    assert!(manager.is_held(&second_guard));
    manager.release(first_guard);
    assert!(manager.is_held(&second_guard));
    manager.release(second_guard);
    granted(first.make_current(&mut manager));
}

#[test]
fn process_wide_requests_wait_for_the_guard_that_is_out() {
    let mut registry = Registry::new();
    let (_device, first, second) = two_contexts(&mut registry);
    let mut manager = ContextManager::new();
    manager.record_probe(&Raw::Flag(0));
    let grant = granted(first.make_current(&mut manager));
    assert_eq!(grant.call(), NativeCall::MakeContextCurrent { context: 0xC1 });
    let guard = grant.confirm(&Raw::Flag(1));
    assert_eq!(second.make_current(&mut manager), Acquisition::Busy);
    assert_eq!(first.make_current(&mut manager), Acquisition::Busy);
    assert!(manager.is_held(&guard));
    manager.release(guard);
    let grant = granted(second.make_current(&mut manager));
    assert_eq!(grant.call(), NativeCall::MakeContextCurrent { context: 0xC2 });
    let guard = grant.confirm(&Raw::Flag(1));
    assert_eq!(first.make_current(&mut manager), Acquisition::Busy);
    manager.release(guard);
    granted(first.make_current(&mut manager));
}

#[test]
fn a_guard_of_another_scope_is_not_held() {
    let mut registry = Registry::new();
    let (_device, first, _second) = two_contexts(&mut registry);
    let mut threads = ContextManager::new();
    threads.record_probe(&Raw::Flag(1));
    let mut process = ContextManager::new();
    process.record_probe(&Raw::Flag(0));
    let guard = granted(first.make_current(&mut threads)).confirm(&Raw::Flag(1));
    assert!(!process.is_held(&guard));
    assert!(threads.is_held(&guard));
}

#[test]
fn a_guard_knows_its_context_and_its_scope() {
    let mut manager = ContextManager::new();
    manager.record_probe(&Raw::Flag(0));
    let grant = granted(manager.acquire_current(0xC7));
    assert_eq!(grant.context(), 0xC7);
    assert_eq!(grant.scope(), Scope::Process);
    let guard = grant.confirm(&Raw::Flag(1));
    assert_eq!(guard.context(), 0xC7);
    assert_eq!(guard.scope(), Scope::Process);
}

#[test]
fn only_a_true_answer_confirms_a_grant() {
    assert!(Grant::is_confirmed_by(&Raw::Flag(1)));
    assert!(Grant::is_confirmed_by(&Raw::Flag(-1)));
    assert!(!Grant::is_confirmed_by(&Raw::Flag(0)));
    assert!(!Grant::is_confirmed_by(&Raw::Int(1)));
    assert!(!Grant::is_confirmed_by(&Raw::Nothing));
}

#[test]
fn a_context_is_current_if_the_engine_reports_its_address() {
    let mut registry = Registry::new();
    let (_device, first, second) = two_contexts(&mut registry);
    assert!(first.is_current(&Raw::Pointer(0xC1)));
    assert!(!first.is_current(&Raw::Pointer(0xC2)));
    assert!(!first.is_current(&Raw::Pointer(0)));
    assert!(!first.is_current(&Raw::Name(0xC1)));
    assert!(second.is_current(&Raw::Pointer(0xC2)));
    for address in [0u64, 0xC1, 0xC2, 0xC3] {
        let reported = Raw::Pointer(address);
        assert!(!(first.is_current(&reported) && second.is_current(&reported)));
    }
}
