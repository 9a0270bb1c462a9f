//! The global lock of the host runtime, as a token that calls pass along.

use vstd::prelude::*;

verus! {

/// The claim of the embedding program that it holds the global lock of the host runtime.
/// It makes the claim when it has taken the lock, and lets go of the value before it
/// releases the lock.
#[derive(Debug)]
pub struct GILGuard {
    _held: (),
}

/// The token of a held lock. Every operation that the host runtime has to be locked for
/// takes one.
#[derive(Clone, Copy, Debug)]
pub struct Python<'p> {
    guard: &'p GILGuard,
}

/// A module of the host runtime.
#[derive(Clone, Copy, Debug)]
pub struct PyModule<'p> {
    py: Python<'p>,
    name: &'p str,
}

impl GILGuard {
    /// Claims that the global lock is held.
    pub fn assume_acquired() -> GILGuard {
        GILGuard { _held: () }
    }

    /// The token of this lock.
    pub fn python(&self) -> Python<'_> {
        Python { guard: self }
    }
}

impl<'p> PyModule<'p> {
    /// The module of the given name, reached under the given lock.
    pub fn new(py: Python<'p>, name: &'p str) -> (module: PyModule<'p>)
        ensures
            module.spec_name() == name,
            module.spec_py() == py,
    {
        PyModule { py, name }
    }

    /// The name of the module.
    pub closed spec fn spec_name(&self) -> &'p str {
        self.name
    }

    /// The name of the module.
    pub fn name(&self) -> (name: &'p str)
        ensures
            name == self.spec_name(),
    {
        self.name
    }

    /// The token of the lock under which the module was reached.
    pub closed spec fn spec_py(&self) -> Python<'p> {
        self.py
    }

    /// The token of the lock under which the module was reached.
    pub fn py(&self) -> (py: Python<'p>)
        ensures
            py == self.spec_py(),
    {
        self.py
    }
}

} // verus!
