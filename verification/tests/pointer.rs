use pyown::{pyptr, ExcType, PyDowncastError, PyErr, PyType, Runtime, Value};

fn runtime_with_object(value: Value) -> (Runtime, usize) {
    let mut rt = Runtime::new(1, 8);
    let ptr = rt.allocate(value);
    (rt, ptr)
}

#[test]
fn new_moves_the_value_into_a_fresh_object() {
    let mut rt = Runtime::new(3, 8);
    let py = rt.python();
    let p = pyptr::new(&mut rt, py, Value::Tuple(vec![4, 5])).unwrap();
    assert_eq!(p.as_ptr(), 1);
    assert_eq!(p.token(), py);
    assert_eq!(p.get_refcnt(&rt), 1);
    assert_eq!(rt.value(p.as_ptr()), Some(&Value::Tuple(vec![4, 5])));
    let q = pyptr::new(&mut rt, py, Value::Plain).unwrap();
    assert_eq!(q.as_ptr(), 2);
    assert_eq!(p.get_refcnt(&rt), 1);
    assert!(!rt.err_occurred());
}

#[test]
fn new_fails_with_memory_error_when_there_is_no_room() {
    let mut rt = Runtime::new(1, 1);
    let py = rt.python();
    let first = pyptr::new(&mut rt, py, Value::Plain).unwrap();
    let second = pyptr::new(&mut rt, py, Value::Plain);
    assert_eq!(
        second.unwrap_err(),
        PyErr { ptype: PyType::Exc(ExcType::MemoryError), pvalue: None }
    );
    assert!(!rt.err_occurred());
    assert_eq!(first.get_refcnt(&rt), 1);
}

#[test]
fn from_owned_ptr_takes_no_claim() {
    let (rt, ptr) = runtime_with_object(Value::Plain);
    let py = rt.python();
    let p = pyptr::from_owned_ptr(&rt, py, ptr);
    assert_eq!(p.as_ptr(), ptr);
    assert_eq!(p.token(), py);
    assert_eq!(p.get_refcnt(&rt), 1);
}

#[test]
fn from_owned_ptr_then_release_is_one_decrement() {
    for extra in 0..3usize {
        let (mut rt, ptr) = runtime_with_object(Value::Plain);
        let py = rt.python();
        for _ in 0..extra {
            rt.incref(ptr);
        }
        let before = rt.refcount(ptr);
        assert_eq!(before, 1 + extra);
        let p = pyptr::from_owned_ptr(&rt, py, ptr);
        assert_eq!(rt.refcount(ptr), before);
        p.release(&mut rt);
        assert_eq!(rt.refcount(ptr), before - 1);
        assert_eq!(rt.is_live(ptr), extra > 0);
    }
}

#[test]
fn from_borrowed_ptr_then_release_is_net_zero() {
    for extra in 0..3usize {
        let (mut rt, ptr) = runtime_with_object(Value::Text(vec![1]));
        let py = rt.python();
        for _ in 0..extra {
            rt.incref(ptr);
        }
        let before = rt.refcount(ptr);
        let p = pyptr::from_borrowed_ptr(&mut rt, py, ptr);
        assert_eq!(p.as_ptr(), ptr);
        assert_eq!(rt.refcount(ptr), before + 1);
        p.release(&mut rt);
        assert_eq!(rt.refcount(ptr), before);
        assert_eq!(rt.value(ptr), Some(&Value::Text(vec![1])));
    }
}

#[test]
fn from_owned_ptr_or_panic_wraps_a_live_address() {
    let (rt, ptr) = runtime_with_object(Value::Plain);
    let py = rt.python();
    let p = pyptr::from_owned_ptr_or_panic(&rt, py, ptr);
    assert_eq!(p.as_ptr(), ptr);
    assert_eq!(p.get_refcnt(&rt), 1);
}

#[test]
fn from_owned_ptr_or_err_wraps_a_live_address() {
    let (mut rt, ptr) = runtime_with_object(Value::Plain);
    let py = rt.python();
    rt.set_error(PyType::Exc(ExcType::KeyError), None);
    let p = pyptr::from_owned_ptr_or_err(&mut rt, py, ptr).unwrap();
    assert_eq!(p.as_ptr(), ptr);
    assert_eq!(p.get_refcnt(&rt), 1);
    assert!(rt.err_occurred());
}

#[test]
fn from_owned_ptr_or_err_on_null_gives_the_pending_error() {
    let (mut rt, ptr) = runtime_with_object(Value::Plain);
    let py = rt.python();
    rt.set_error(PyType::Exc(ExcType::ValueError), Some(Value::Text(vec![7])));
    let e = pyptr::from_owned_ptr_or_err(&mut rt, py, 0).unwrap_err();
    assert_eq!(
        e,
        PyErr { ptype: PyType::Exc(ExcType::ValueError), pvalue: Some(Value::Text(vec![7])) }
    );
    assert!(!rt.err_occurred());
    assert_eq!(rt.fetch_error(), None);
    assert_eq!(rt.refcount(ptr), 1);
}

#[test]
fn from_owned_ptr_or_err_on_null_with_an_empty_slot_gives_runtime_error() {
    let mut rt = Runtime::new(1, 8);
    let py = rt.python();
    let e = pyptr::from_owned_ptr_or_err(&mut rt, py, 0).unwrap_err();
    assert_eq!(e, PyErr { ptype: PyType::Exc(ExcType::RuntimeError), pvalue: None });
    assert!(!rt.err_occurred());
}

#[test]
fn key_error_scenario() {
    let mut rt = Runtime::new(1, 8);
    let py = rt.python();
    rt.set_error(ExcType::KeyError.type_object(), Some(Value::Text(b"missing".to_vec())));
    let raw = 0;
    let e = pyptr::from_owned_ptr_or_err(&mut rt, py, raw).unwrap_err();
    assert_eq!(e.ptype, PyType::Exc(ExcType::KeyError));
    assert_eq!(e.pvalue, Some(Value::Text(b"missing".to_vec())));
    assert_eq!(rt.fetch_error(), None);
}

#[test]
fn from_owned_ptr_or_opt_on_null_is_none() {
    let (rt, ptr) = runtime_with_object(Value::Plain);
    let py = rt.python();
    assert!(pyptr::from_owned_ptr_or_opt(&rt, py, 0).is_none());
    assert_eq!(rt.refcount(ptr), 1);
    let p = pyptr::from_owned_ptr_or_opt(&rt, py, ptr).unwrap();
    assert_eq!(p.as_ptr(), ptr);
    assert_eq!(rt.refcount(ptr), 1);
}

#[test]
fn from_borrowed_ptr_or_opt_on_null_is_none_and_touches_nothing() {
    let (mut rt, ptr) = runtime_with_object(Value::Plain);
    let py = rt.python();
    rt.set_error(PyType::Exc(ExcType::KeyError), None);
    assert!(pyptr::from_borrowed_ptr_or_opt(&mut rt, py, 0).is_none());
    assert_eq!(rt.refcount(ptr), 1);
    assert!(rt.err_occurred());
}

#[test]
fn from_borrowed_ptr_or_opt_takes_a_claim() {
    let (mut rt, ptr) = runtime_with_object(Value::Plain);
    let py = rt.python();
    let p = pyptr::from_borrowed_ptr_or_opt(&mut rt, py, ptr).unwrap();
    assert_eq!(p.as_ptr(), ptr);
    assert_eq!(p.token(), py);
    assert_eq!(rt.refcount(ptr), 2);
}

#[test]
fn get_refcnt_follows_the_runtime() {
    let (mut rt, ptr) = runtime_with_object(Value::Plain);
    let py = rt.python();
    let p = pyptr::from_owned_ptr(&rt, py, ptr);
    rt.incref(ptr);
    rt.incref(ptr);
    assert_eq!(p.get_refcnt(&rt), 3);
    rt.decref(ptr);
    assert_eq!(p.get_refcnt(&rt), 2);
}

#[test]
fn token_is_the_one_given() {
    let mut rt = Runtime::new(42, 8);
    let py = rt.python();
    let p = pyptr::new(&mut rt, py, Value::Plain).unwrap();
    assert_eq!(p.token(), py);
    assert_eq!(p.token().interp(), 42);
}

#[test]
fn into_ptr_keeps_the_claim() {
    let (mut rt, ptr) = runtime_with_object(Value::Plain);
    let py = rt.python();
    let p = pyptr::from_borrowed_ptr(&mut rt, py, ptr);
    assert_eq!(rt.refcount(ptr), 2);
    let raw = p.into_ptr();
    assert_eq!(raw, ptr);
    assert_eq!(rt.refcount(ptr), 2);
}

#[test]
fn forget_and_rewrap_round_trip() {
    let (mut rt, ptr) = runtime_with_object(Value::Text(vec![1, 2]));
    let py = rt.python();
    rt.incref(ptr);
    let before = rt.refcount(ptr);
    let first = pyptr::from_owned_ptr(&rt, py, ptr);
    let raw = first.into_ptr();
    let again = pyptr::from_owned_ptr(&rt, py, raw);
    assert_eq!(again.as_ptr(), ptr);
    assert_eq!(again.token(), py);
    assert_eq!(rt.refcount(ptr), before);
    again.release(&mut rt);
    assert_eq!(rt.refcount(ptr), before - 1);
}

#[test]
fn life_of_an_object_scenario() {
    let mut rt = Runtime::new(1, 8);
    let py = rt.python();
    let raw = rt.allocate(Value::Plain);
    assert_eq!(rt.refcount(raw), 1);
    let owned = pyptr::from_owned_ptr(&rt, py, raw);
    assert_eq!(owned.get_refcnt(&rt), 1);
    let borrowed = pyptr::from_borrowed_ptr(&mut rt, py, raw);
    assert_eq!(owned.get_refcnt(&rt), 2);
    assert_eq!(borrowed.get_refcnt(&rt), 2);
    borrowed.release(&mut rt);
    assert_eq!(owned.get_refcnt(&rt), 1);
    owned.release(&mut rt);
    assert_eq!(rt.refcount(raw), 0);
    assert!(!rt.is_live(raw));
}

#[test]
fn release_of_the_last_claim_frees_the_address() {
    let mut rt = Runtime::new(1, 2);
    let py = rt.python();
    let a = pyptr::new(&mut rt, py, Value::Plain).unwrap();
    let b = pyptr::new(&mut rt, py, Value::Plain).unwrap();
    assert!(pyptr::new(&mut rt, py, Value::Plain).is_err());
    a.release(&mut rt);
    let c = pyptr::new(&mut rt, py, Value::Text(vec![1])).unwrap();
    assert_eq!(c.as_ptr(), 1);
    assert_eq!(b.get_refcnt(&rt), 1);
}

#[test]
fn cast_from_owned_ptr_success_keeps_the_address() {
    let (rt, ptr) = runtime_with_object(Value::Text(vec![1]));
    let py = rt.python();
    let p = pyptr::cast_from_owned_ptr(&rt, py, ptr, PyType::Str).unwrap();
    assert_eq!(p.as_ptr(), ptr);
    assert_eq!(p.token(), py);
    assert_eq!(rt.refcount(ptr), 1);
}

#[test]
fn cast_from_owned_ptr_accepts_a_base_type() {
    let mut rt = Runtime::new(1, 8);
    let py = rt.python();
    let ptr = rt.decode_error_create("utf-8", &[255], 0, 1, "invalid utf-8");
    for ty in [
        PyType::Exc(ExcType::UnicodeDecodeError),
        PyType::Exc(ExcType::UnicodeError),
        PyType::Exc(ExcType::ValueError),
        PyType::Exc(ExcType::Exception),
        PyType::Object,
    ] {
        let p = pyptr::cast_from_owned_ptr(&rt, py, ptr, ty).unwrap();
        assert_eq!(p.into_ptr(), ptr);
    }
    assert_eq!(rt.refcount(ptr), 1);
}

#[test]
fn cast_from_owned_ptr_failure_leaves_an_empty_slot_empty() {
    let (rt, ptr) = runtime_with_object(Value::Text(vec![1]));
    let py = rt.python();
    let e = pyptr::cast_from_owned_ptr(&rt, py, ptr, PyType::Tuple).unwrap_err();
    assert_eq!(e, PyDowncastError(py, Some(PyType::Tuple)));
    assert!(!rt.err_occurred());
    assert_eq!(rt.refcount(ptr), 1);
}

#[test]
fn cast_from_owned_ptr_failure_leaves_a_pending_error_pending() {
    let (mut rt, ptr) = runtime_with_object(Value::Plain);
    let py = rt.python();
    rt.set_error(PyType::Exc(ExcType::KeyError), None);
    let e = pyptr::cast_from_owned_ptr(&rt, py, ptr, PyType::Exc(ExcType::KeyError)).unwrap_err();
    assert_eq!(e.0, py);
    assert_eq!(e.1, Some(PyType::Exc(ExcType::KeyError)));
    assert_eq!(rt.fetch_error(), Some((PyType::Exc(ExcType::KeyError), None)));
}

#[test]
fn cast_from_borrowed_ptr_success_takes_a_claim() {
    let (mut rt, ptr) = runtime_with_object(Value::Tuple(vec![]));
    let py = rt.python();
    let p = pyptr::cast_from_borrowed_ptr(&mut rt, py, ptr, PyType::Tuple).unwrap();
    assert_eq!(p.as_ptr(), ptr);
    assert_eq!(rt.refcount(ptr), 2);
    p.release(&mut rt);
    assert_eq!(rt.refcount(ptr), 1);
}

#[test]
fn cast_from_borrowed_ptr_failure_takes_no_claim() {
    let (mut rt, ptr) = runtime_with_object(Value::Tuple(vec![]));
    let py = rt.python();
    let e = pyptr::cast_from_borrowed_ptr(&mut rt, py, ptr, PyType::Str).unwrap_err();
    assert_eq!(e, PyDowncastError(py, Some(PyType::Str)));
    assert_eq!(rt.refcount(ptr), 1);
    assert!(!rt.err_occurred());
}

#[test]
fn cast_from_owned_ptr_or_panic_wraps_an_instance() {
    let (rt, ptr) = runtime_with_object(Value::Text(vec![]));
    let py = rt.python();
    let p = pyptr::cast_from_owned_ptr_or_panic(&rt, py, ptr, PyType::Str);
    assert_eq!(p.as_ptr(), ptr);
    assert_eq!(p.get_refcnt(&rt), 1);
}

#[test]
fn cast_from_owned_ptr_or_err_on_null_gives_the_pending_error() {
    let mut rt = Runtime::new(1, 8);
    let py = rt.python();
    rt.set_error(PyType::Exc(ExcType::OverflowError), None);
    let e = pyptr::cast_from_owned_ptr_or_err(&mut rt, py, 0, PyType::Str).unwrap_err();
    assert_eq!(e, PyErr { ptype: PyType::Exc(ExcType::OverflowError), pvalue: None });
    assert!(!rt.err_occurred());
}

#[test]
fn cast_from_owned_ptr_or_err_on_null_with_an_empty_slot_is_not_a_type_error() {
    let mut rt = Runtime::new(1, 8);
    let py = rt.python();
    let e = pyptr::cast_from_owned_ptr_or_err(&mut rt, py, 0, PyType::Str).unwrap_err();
    assert_eq!(e.ptype, PyType::Exc(ExcType::RuntimeError));
    assert!(!rt.err_occurred());
}

#[test]
fn cast_from_owned_ptr_or_err_on_a_mismatch_gives_type_error() {
    let (mut rt, ptr) = runtime_with_object(Value::Plain);
    let py = rt.python();
    rt.set_error(PyType::Exc(ExcType::KeyError), None);
    let e = pyptr::cast_from_owned_ptr_or_err(&mut rt, py, ptr, PyType::Str).unwrap_err();
    assert_eq!(e, PyErr { ptype: PyType::Exc(ExcType::TypeError), pvalue: None });
    assert_eq!(rt.fetch_error(), Some((PyType::Exc(ExcType::KeyError), None)));
    assert_eq!(rt.refcount(ptr), 1);
}

#[test]
fn cast_from_owned_ptr_or_err_on_a_match_wraps() {
    let (mut rt, ptr) = runtime_with_object(Value::Text(vec![1]));
    let py = rt.python();
    let p = pyptr::cast_from_owned_ptr_or_err(&mut rt, py, ptr, PyType::Str).unwrap();
    assert_eq!(p.as_ptr(), ptr);
    assert_eq!(rt.refcount(ptr), 1);
    assert!(!rt.err_occurred());
}
