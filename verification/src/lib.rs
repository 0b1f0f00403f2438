//! An ownership layer over a reference-counted object runtime.
//!
//! The runtime keeps a table of heap objects, each with a reference count and
//! a dynamic type, and a single pending-error slot. This crate wraps raw
//! object addresses in an owning handle, [`pyptr`], whose constructors say
//! exactly which claims on the reference count they take, and turns the
//! runtime's failure conventions into structured error values.
//!
//! - [`runtime`]: the runtime itself and [`runtime::State`], the picture of
//!   it that all contracts are written over.
//! - [`typeob`], [`object`]: type objects with their subclass relation, and
//!   what a heap object holds.
//! - [`pointer`]: the owning handle.
//! - [`err`]: error values and the reading of the pending-error slot.
//! - [`exc`]: decoding errors and the end-of-iteration signal.
//! - [`text`]: the decoding of rendered bytes into host text.
//! - [`laws`]: what the steps on the reference counts add up to.

pub mod err;
pub mod exc;
pub mod laws;
pub mod object;
pub mod pointer;
pub mod python;
pub mod runtime;
pub mod text;
pub mod typeob;

pub use crate::err::{FormatError, PyDowncastError, PyErr, PyResult};
pub use crate::exc::{StopIteration, UnicodeDecodeError};
pub use crate::object::{DecodeFailure, Value};
pub use crate::pointer::pyptr;
pub use crate::python::Python;
pub use crate::runtime::Runtime;
pub use crate::typeob::{ExcType, PyType};
