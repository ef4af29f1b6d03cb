use nix_expr::channel::ErrorChannel;
use nix_expr::encoding::{check_utf8, decode_engine_string};
use nix_expr::errors::EngineError;
use nix_expr::gc::{gc_register_my_thread, gc_registering_current_thread, ThreadGcState};
use nix_expr::init::{init, InitCache, InitStatus};
use nix_expr::kind::{kind_from_tag, kind_name, ValueKind, THUNK_TAG};

fn engine_failure(message: &str) -> EngineError {
    EngineError {
        message: String::from(message),
    }
}

#[test]
fn init_caches_success() {
    let mut cache = InitCache::new();
    assert!(cache.needs_run());
    assert!(init(&mut cache, Some(Ok(()))).is_ok());
    assert!(!cache.needs_run());
    // a later caller passes no fresh outcome and observes the cached one
    assert!(init(&mut cache, None).is_ok());
}

#[test]
fn init_caches_failure_and_reproduces_message() {
    let mut cache = InitCache::new();
    let r = init(&mut cache, Some(Err(engine_failure("boom"))));
    match r {
        Err(e) => assert_eq!(e.message(), "nix_libstore_init error: boom"),
        Ok(_) => panic!("expected an error"),
    }
    assert!(!cache.needs_run());
    // the failure is cached and reproduced, never retried
    let r2 = init(&mut cache, None);
    match r2 {
        Err(e) => assert_eq!(e.message(), "nix_libstore_init error: boom"),
        Ok(_) => panic!("expected an error"),
    }
}

#[test]
fn init_all_callers_observe_same_outcome() {
    let mut cache = InitCache::new();
    let first = init(&mut cache, Some(Ok(()))).is_ok();
    for _ in 0..5 {
        assert_eq!(init(&mut cache, None).is_ok(), first);
    }
}

#[test]
fn error_channel_check_consumes_report() {
    let mut ch = ErrorChannel::new();
    ch.record(Some(engine_failure("call failed")));
    match ch.check() {
        Err(e) => assert_eq!(e.message(), "call failed"),
        Ok(()) => panic!("expected an error"),
    }
    // a second check without an intervening call observes no error
    assert!(ch.check().is_ok());
    ch.record(None);
    assert!(ch.check().is_ok());
}

#[test]
fn gc_register_my_thread_is_a_noop_when_registered() {
    let mut ts = ThreadGcState { registered: true };
    assert!(gc_register_my_thread(&mut ts, Err(7)).is_ok());
    assert!(ts.registered);
}

#[test]
fn gc_register_my_thread_reports_stack_base_failure() {
    let mut ts = ThreadGcState::new();
    match gc_register_my_thread(&mut ts, Err(3)) {
        Err(e) => {
            assert_eq!(e.code, 3);
            assert_eq!(e.message(), "GC_get_stack_base failed: 3");
        }
        Ok(()) => panic!("expected an error"),
    }
    assert!(!ts.registered);
    match gc_register_my_thread(&mut ts, Err(-2)) {
        Err(e) => assert_eq!(e.message(), "GC_get_stack_base failed: -2"),
        Ok(()) => panic!("expected an error"),
    }
    assert!(gc_register_my_thread(&mut ts, Ok(())).is_ok());
    assert!(ts.registered);
}

#[test]
fn registered_thread_bracket_restores_state() {
    let mut cache = InitCache::new();
    let mut ts = ThreadGcState::new();
    let r = gc_registering_current_thread(&mut cache, Some(Ok(())), &mut ts, Ok(()), || 41 + 1);
    assert_eq!(r.unwrap(), 42);
    // this call site registered, so it unregistered afterwards
    assert!(!ts.registered);

    // an already-registered thread is left registered: the call site did
    // not own that state
    let mut ts2 = ThreadGcState { registered: true };
    let r2 = gc_registering_current_thread(&mut cache, None, &mut ts2, Err(9), || "ran");
    assert_eq!(r2.unwrap(), "ran");
    assert!(ts2.registered);
}

#[test]
fn registered_thread_bracket_fails_without_stack_base() {
    let mut cache = InitCache::new();
    let mut ts = ThreadGcState::new();
    let r = gc_registering_current_thread(&mut cache, Some(Ok(())), &mut ts, Err(5), || ());
    match r {
        Err(e) => assert_eq!(e.message(), "GC_get_stack_base failed: 5"),
        Ok(()) => panic!("expected an error"),
    }
    assert!(!ts.registered);
}

#[test]
fn registered_thread_bracket_resurfaces_init_failure() {
    let mut cache = InitCache::new();
    match &cache.status {
        InitStatus::Uninitialized => {}
        _ => panic!("expected an unresolved cache"),
    }
    let r = gc_registering_current_thread(
        &mut cache,
        Some(Err(engine_failure("boom"))),
        &mut ThreadGcState::new(),
        Ok(()),
        || (),
    );
    match r {
        Err(e) => assert_eq!(e.message(), "nix_libstore_init error: boom"),
        Ok(()) => panic!("expected an error"),
    }
}

#[test]
fn kind_tags_follow_engine_numbering() {
    assert_eq!(kind_from_tag(THUNK_TAG), None);
    assert_eq!(kind_from_tag(1), Some(ValueKind::Integer));
    assert_eq!(kind_from_tag(2), Some(ValueKind::Float));
    assert_eq!(kind_from_tag(3), Some(ValueKind::Bool));
    assert_eq!(kind_from_tag(4), Some(ValueKind::String));
    assert_eq!(kind_from_tag(5), Some(ValueKind::Path));
    assert_eq!(kind_from_tag(6), Some(ValueKind::Null));
    assert_eq!(kind_from_tag(7), Some(ValueKind::AttrSet));
    assert_eq!(kind_from_tag(8), Some(ValueKind::List));
    assert_eq!(kind_from_tag(9), Some(ValueKind::Function));
    assert_eq!(kind_from_tag(10), Some(ValueKind::External));
    assert_eq!(kind_from_tag(11), None);
    assert_eq!(kind_name(ValueKind::Bool), "Bool");
    assert_eq!(kind_name(ValueKind::Path), "Path");
}

#[test]
fn utf8_validator_accepts_valid_sequences() {
    assert!(check_utf8(&b"".to_vec()));
    assert!(check_utf8(&b"hello".to_vec()));
    // two-, three- and four-byte scalars
    assert!(check_utf8(&"caf\u{e9} \u{2603} \u{1f600}".as_bytes().to_vec()));
}

#[test]
fn utf8_validator_rejects_invalid_sequences() {
    // truncated two-byte encoding
    assert!(!check_utf8(&vec![0xc3]));
    // bare continuation byte
    assert!(!check_utf8(&vec![0x80]));
    // overlong encoding of '/'
    assert!(!check_utf8(&vec![0xc0, 0xaf]));
    // encoded surrogate
    assert!(!check_utf8(&vec![0xed, 0xa0, 0x80]));
    // beyond the last scalar value
    assert!(!check_utf8(&vec![0xf4, 0x90, 0x80, 0x80]));
    // 0xf8 is never a leading byte
    assert!(!check_utf8(&vec![0xf8, 0x80, 0x80, 0x80]));
}

#[test]
fn decode_engine_string_is_byte_for_byte() {
    let bytes = "p\u{e4}th \u{1f600}".as_bytes().to_vec();
    let s = decode_engine_string(bytes.clone()).unwrap();
    assert_eq!(s.as_bytes(), bytes.as_slice());

    let r = decode_engine_string(vec![b'a', 0xff, b'b']);
    match r {
        Err(e) => assert!(e.message().contains("not valid UTF-8")),
        Ok(_) => panic!("expected an error"),
    }
}
