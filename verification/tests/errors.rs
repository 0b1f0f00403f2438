use pyown::{ExcType, FormatError, PyDowncastError, PyErr, PyType, Runtime, Value};

#[test]
fn fetch_reads_and_clears_the_slot() {
    let mut rt = Runtime::new(1, 4);
    let py = rt.python();
    rt.set_error(PyType::Exc(ExcType::IndexError), Some(Value::Tuple(vec![1, 2])));
    let e = PyErr::fetch(&mut rt, py);
    assert_eq!(e.ptype, PyType::Exc(ExcType::IndexError));
    assert_eq!(e.pvalue, Some(Value::Tuple(vec![1, 2])));
    assert!(!rt.err_occurred());
}

#[test]
fn fetch_on_an_empty_slot_gives_runtime_error() {
    let mut rt = Runtime::new(1, 4);
    let py = rt.python();
    let e = PyErr::fetch(&mut rt, py);
    assert_eq!(e, PyErr { ptype: PyType::Exc(ExcType::RuntimeError), pvalue: None });
    assert!(!rt.err_occurred());
}

#[test]
fn fetch_twice_gives_the_error_only_once() {
    let mut rt = Runtime::new(1, 4);
    let py = rt.python();
    rt.set_error(PyType::Exc(ExcType::KeyError), None);
    assert_eq!(PyErr::fetch(&mut rt, py).ptype, PyType::Exc(ExcType::KeyError));
    assert_eq!(PyErr::fetch(&mut rt, py).ptype, PyType::Exc(ExcType::RuntimeError));
}

#[test]
fn fetch_leaves_the_objects_alone() {
    let mut rt = Runtime::new(1, 4);
    let py = rt.python();
    let p = rt.allocate(Value::Plain);
    rt.incref(p);
    rt.set_error(PyType::Exc(ExcType::KeyError), None);
    let _ = PyErr::fetch(&mut rt, py);
    assert_eq!(rt.refcount(p), 2);
}

#[test]
fn a_downcast_error_lifts_to_type_error() {
    let rt = Runtime::new(1, 4);
    let py = rt.python();
    let e: PyErr = PyErr::from(PyDowncastError(py, Some(PyType::Str)));
    assert_eq!(e, PyErr { ptype: PyType::Exc(ExcType::TypeError), pvalue: None });
    let e: PyErr = PyDowncastError(py, None).into();
    assert_eq!(e, PyErr { ptype: PyType::Exc(ExcType::TypeError), pvalue: None });
}

#[test]
fn a_downcast_error_carries_token_and_expected_type() {
    let rt = Runtime::new(9, 4);
    let py = rt.python();
    let e = PyDowncastError(py, Some(PyType::Tuple));
    assert_eq!(e.0.interp(), 9);
    assert_eq!(e.1, Some(PyType::Tuple));
}

#[test]
fn format_errors_are_all_alike() {
    assert_eq!(FormatError, FormatError);
}
