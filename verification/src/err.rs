//! Errors as the host runtime sees them: an exception kind and a message.

use vstd::prelude::*;
use vstd::string::*;

verus! {

/// The exception kinds this library raises or passes through.
#[derive(Clone, Copy, Debug, PartialEq, Eq, Structural)]
pub enum ExceptionKind {
    /// A call did not fit the signature of the callable.
    TypeError,
    /// Construction of an object was abandoned.
    RuntimeError,
    /// A value cannot be represented in the form the host requires.
    ValueError,
    /// The host runtime itself reported a failure.
    SystemError,
}

/// A host-visible error: the kind of exception and its message.
#[derive(Debug, PartialEq, Eq)]
pub struct PyErr {
    pub kind: ExceptionKind,
    pub message: String,
}

/// The mathematical content of a [`PyErr`].
pub struct PyErrView {
    pub kind: ExceptionKind,
    pub message: Seq<char>,
}

pub type PyResult<T> = Result<T, PyErr>;

impl View for PyErr {
    type V = PyErrView;

    open spec fn view(&self) -> PyErrView {
        PyErrView { kind: self.kind, message: self.message@ }
    }
}

impl PyErr {
    /// An error of the given kind with the given message.
    pub fn new(kind: ExceptionKind, message: String) -> (e: PyErr)
        ensures
            e@ == (PyErrView { kind, message: message@ }),
    {
        PyErr { kind, message }
    }

    /// A type error with the given message.
    pub fn type_error(message: String) -> (e: PyErr)
        ensures
            e@ == (PyErrView { kind: ExceptionKind::TypeError, message: message@ }),
    {
        PyErr { kind: ExceptionKind::TypeError, message }
    }

    /// A runtime error with the given message.
    pub fn runtime_error(message: String) -> (e: PyErr)
        ensures
            e@ == (PyErrView { kind: ExceptionKind::RuntimeError, message: message@ }),
    {
        PyErr { kind: ExceptionKind::RuntimeError, message }
    }

    /// A value error with the given message.
    pub fn value_error(message: String) -> (e: PyErr)
        ensures
            e@ == (PyErrView { kind: ExceptionKind::ValueError, message: message@ }),
    {
        PyErr { kind: ExceptionKind::ValueError, message }
    }

    /// A copy of this error.
    pub fn duplicate(&self) -> (e: PyErr)
        ensures
            e@ == self@,
    {
        PyErr { kind: self.kind, message: self.message.clone() }
    }

    /// Whether this error is of the given kind.
    pub fn is_instance(&self, kind: ExceptionKind) -> (b: bool)
        ensures
            b == (self@.kind == kind),
    {
        self.kind == kind
    }
}

} // verus!
