use nix_expr::errors::EngineError;
use nix_expr::eval::{EvalState, NewError, Store, Value};
use nix_expr::gc::{gc_registering_current_thread, ThreadGcState};
use nix_expr::init::InitCache;
use nix_expr::kind::ValueKind;

/// Runs `f` the way the embedding program would: process-wide
/// initialization observed as successful, the calling thread registered for
/// the duration.
fn with_registered<R>(f: impl FnOnce() -> R) -> R {
    let mut cache = InitCache::new();
    let mut ts = ThreadGcState::new();
    match gc_registering_current_thread(&mut cache, Some(Ok(())), &mut ts, Ok(()), f) {
        Ok(r) => r,
        Err(_) => panic!("registration failed"),
    }
}

fn new_eval_state() -> EvalState {
    match EvalState::new(Store { handle: 1 }, Ok(()), true) {
        Ok(es) => es,
        Err(_) => panic!("EvalState::new failed"),
    }
}

fn engine_report(message: &str) -> EngineError {
    EngineError {
        message: String::from(message),
    }
}

fn eval_ok(es: &mut EvalState, expr: &str, path: &str) -> Value {
    match es.eval_from_string(String::from(expr), String::from(path), None) {
        Ok(v) => v,
        Err(e) => panic!("eval_from_string failed: {}", e.message()),
    }
}

#[test]
fn eval_state_new_and_drop() {
    with_registered(|| {
        // very basic test: make sure construction and teardown work
        let mut es = new_eval_state();
        es.close();
        assert!(!es.live);
    });
}

#[test]
fn eval_state_eval_from_string() {
    with_registered(|| {
        let mut es = new_eval_state();
        let v = eval_ok(&mut es, "1", "<test>");
        let v2 = v.clone();
        es.force(&v, Ok(ValueKind::Integer)).unwrap();
        let t = es.value_type(&v, Err(engine_report("unused"))).unwrap();
        assert!(t == ValueKind::Integer);
        let t2 = es.value_type(&v2, Err(engine_report("unused"))).unwrap();
        assert!(t2 == ValueKind::Integer);
    });
}

#[test]
fn eval_state_value_bool() {
    with_registered(|| {
        let mut es = new_eval_state();
        let v = eval_ok(&mut es, "true", "<test>");
        es.force(&v, Ok(ValueKind::Bool)).unwrap();
        let t = es.value_type(&v, Err(engine_report("unused"))).unwrap();
        assert!(t == ValueKind::Bool);
    });
}

#[test]
fn eval_state_value_string() {
    with_registered(|| {
        let mut es = new_eval_state();
        let v = eval_ok(&mut es, "\"hello\"", "<test>");
        es.force(&v, Ok(ValueKind::String)).unwrap();
        let t = es.value_type(&v, Err(engine_report("unused"))).unwrap();
        assert!(t == ValueKind::String);
        let s = es
            .require_string(&v, Err(engine_report("unused")), Ok(b"hello".to_vec()))
            .unwrap_or_else(|_| panic!("require_string failed"));
        assert!(s == "hello");
    });
}

#[test]
fn eval_state_value_string_unexpected_bool() {
    with_registered(|| {
        let mut es = new_eval_state();
        let v = eval_ok(&mut es, "true", "<test>");
        es.force(&v, Ok(ValueKind::Bool)).unwrap();
        let r = es.require_string(&v, Err(engine_report("unused")), Ok(Vec::new()));
        assert!(r.is_err());
        let e = match r {
            Err(e) => e,
            Ok(_) => panic!("expected an error"),
        };
        assert_eq!(e.message(), "expected a string, but got a Bool");
    });
}

#[test]
fn eval_state_value_string_unexpected_path_value() {
    with_registered(|| {
        let mut es = new_eval_state();
        let v = eval_ok(&mut es, "/foo", "<test>");
        es.force(&v, Ok(ValueKind::Path)).unwrap();
        let r = es.require_string(&v, Err(engine_report("unused")), Ok(Vec::new()));
        assert!(r.is_err());
        let e = match r {
            Err(e) => e,
            Ok(_) => panic!("expected an error"),
        };
        assert_eq!(e.message(), "expected a string, but got a Path");
    });
}

#[test]
fn eval_state_value_string_bad_utf() {
    with_registered(|| {
        let mut es = new_eval_state();
        let v = eval_ok(&mut es, "builtins.substring 0 1 \"\u{fc}\"", "<test>");
        es.force(&v, Ok(ValueKind::String)).unwrap();
        let t = es.value_type(&v, Err(engine_report("unused"))).unwrap();
        assert!(t == ValueKind::String);
        // taking the first byte of the two-byte encoding truncates it
        let r = es.require_string(&v, Err(engine_report("unused")), Ok(vec![0xc3]));
        assert!(r.is_err());
        let e = match r {
            Err(e) => e,
            Ok(_) => panic!("expected an error"),
        };
        assert!(e.message().contains("Nix string is not valid UTF-8"));
    });
}

#[test]
fn eval_state_value_string_unexpected_context() {
    with_registered(|| {
        let mut es = new_eval_state();
        let v = eval_ok(
            &mut es,
            "(derivation { name = \"hello\"; system = \"dummy\"; builder = \"cmd.exe\"; }).outPath",
            "<test>",
        );
        es.force(&v, Ok(ValueKind::String)).unwrap();
        let t = es.value_type(&v, Err(engine_report("unused"))).unwrap();
        assert!(t == ValueKind::String);
    });
}

#[test]
fn eval_state_value_attrset() {
    with_registered(|| {
        let mut es = new_eval_state();
        let v = eval_ok(&mut es, "{ }", "<test>");
        es.force(&v, Ok(ValueKind::AttrSet)).unwrap();
        let t = es.value_type(&v, Err(engine_report("unused"))).unwrap();
        assert!(t == ValueKind::AttrSet);
    });
}

#[test]
fn eval_state_value_list() {
    with_registered(|| {
        let mut es = new_eval_state();
        let v = eval_ok(&mut es, "[ ]", "<test>");
        es.force(&v, Ok(ValueKind::List)).unwrap();
        let t = es.value_type(&v, Err(engine_report("unused"))).unwrap();
        assert!(t == ValueKind::List);
    });
}

#[test]
fn eval_state_new_reports_null_context() {
    let r = EvalState::new(Store { handle: 1 }, Ok(()), false);
    let e = match r {
        Err(NewError::Engine(e)) => e,
        _ => panic!("expected an engine error"),
    };
    assert_eq!(e.message(), "nix_state_create returned a null pointer");
}

#[test]
fn eval_state_new_resurfaces_init_failure() {
    let r = EvalState::new(
        Store { handle: 1 },
        Err(nix_expr::errors::InitError {
            message: String::from("nix_libstore_init error: boom"),
        }),
        true,
    );
    match r {
        Err(NewError::Init(e)) => assert_eq!(e.message(), "nix_libstore_init error: boom"),
        _ => panic!("expected an init error"),
    }
}

#[test]
fn eval_from_string_rejects_nul_bytes() {
    with_registered(|| {
        let mut es = new_eval_state();
        let r = es.eval_from_string(String::from("a\0b"), String::from("<test>"), None);
        match r {
            Err(e) => assert_eq!(e.message(), "eval_from_string: expr contains null byte"),
            Ok(_) => panic!("expected an error"),
        }
        let r = es.eval_from_string(String::from("1"), String::from("<t\0>"), None);
        match r {
            Err(e) => assert_eq!(e.message(), "eval_from_string: path contains null byte"),
            Ok(_) => panic!("expected an error"),
        }
    });
}

#[test]
fn eval_from_string_propagates_engine_report() {
    with_registered(|| {
        let mut es = new_eval_state();
        let r = es.eval_from_string(
            String::from("1 +"),
            String::from("<test>"),
            Some(engine_report("syntax error")),
        );
        match r {
            Err(e) => assert_eq!(e.message(), "syntax error"),
            Ok(_) => panic!("expected an error"),
        }
    });
}

#[test]
fn force_failure_keeps_value_a_thunk() {
    with_registered(|| {
        let mut es = new_eval_state();
        let v = eval_ok(&mut es, "builtins.throw \"boom\"", "<test>");
        assert!(es.value_is_thunk(&v));
        let r = es.force(&v, Err(engine_report("boom")));
        match r {
            Err(e) => assert_eq!(e.message(), "boom"),
            Ok(_) => panic!("expected an error"),
        }
        assert!(es.value_is_thunk(&v));
        es.force(&v, Ok(ValueKind::Integer)).unwrap();
        assert!(!es.value_is_thunk(&v));
    });
}

#[test]
fn force_twice_is_idempotent() {
    with_registered(|| {
        let mut es = new_eval_state();
        let v = eval_ok(&mut es, "1", "<test>");
        es.force(&v, Ok(ValueKind::Integer)).unwrap();
        let t1 = es.value_type(&v, Err(engine_report("unused"))).unwrap();
        // a second force cannot introduce an error, whatever the engine
        // call would report, and the kind is unchanged
        es.force(&v, Err(engine_report("unused"))).unwrap();
        let t2 = es.value_type(&v, Err(engine_report("unused"))).unwrap();
        assert!(t1 == ValueKind::Integer);
        assert!(t2 == ValueKind::Integer);
    });
}

#[test]
fn require_string_returns_exact_bytes() {
    with_registered(|| {
        let mut es = new_eval_state();
        let v = eval_ok(&mut es, "\"caf\u{e9} \u{1f600}\"", "<test>");
        es.force(&v, Ok(ValueKind::String)).unwrap();
        let bytes = "caf\u{e9} \u{1f600}".as_bytes().to_vec();
        let s = es
            .require_string(&v, Err(engine_report("unused")), Ok(bytes))
            .unwrap_or_else(|_| panic!("require_string failed"));
        assert_eq!(s, "caf\u{e9} \u{1f600}");
    });
}

#[test]
fn require_string_propagates_fetch_failure() {
    with_registered(|| {
        let mut es = new_eval_state();
        let v = eval_ok(&mut es, "\"hello\"", "<test>");
        es.force(&v, Ok(ValueKind::String)).unwrap();
        let r = es.require_string(
            &v,
            Err(engine_report("unused")),
            Err(engine_report("string query failed")),
        );
        match r {
            Err(e) => assert_eq!(e.message(), "string query failed"),
            Ok(_) => panic!("expected an error"),
        }
    });
}

#[test]
fn require_string_propagates_force_failure() {
    with_registered(|| {
        let mut es = new_eval_state();
        let v = eval_ok(&mut es, "builtins.throw \"boom\"", "<test>");
        let r = es.require_string(&v, Err(engine_report("boom")), Ok(Vec::new()));
        match r {
            Err(e) => assert_eq!(e.message(), "boom"),
            Ok(_) => panic!("expected an error"),
        }
        assert!(es.value_is_thunk(&v));
    });
}

#[test]
fn wrong_kind_messages_name_every_kind() {
    with_registered(|| {
        let mut es = new_eval_state();
        let cases = [
            (ValueKind::Integer, "expected a string, but got a Integer"),
            (ValueKind::Float, "expected a string, but got a Float"),
            (ValueKind::Null, "expected a string, but got a Null"),
            (ValueKind::AttrSet, "expected a string, but got a AttrSet"),
            (ValueKind::List, "expected a string, but got a List"),
            (ValueKind::Function, "expected a string, but got a Function"),
            (ValueKind::External, "expected a string, but got a External"),
        ];
        for (kind, message) in cases {
            let v = eval_ok(&mut es, "x", "<test>");
            es.force(&v, Ok(kind)).unwrap();
            let r = es.require_string(&v, Err(engine_report("unused")), Ok(Vec::new()));
            match r {
                Err(e) => assert_eq!(e.message(), message),
                Ok(_) => panic!("expected an error"),
            }
        }
    });
}
