//! What a native type declares of its methods and properties.

use vstd::prelude::*;

use crate::host::Accessor;
use crate::host::Callback;
use crate::host::GetSetDef;
use crate::host::MethodDef;

verus! {

/// The calling convention of a native entry point.
#[derive(Clone, Copy, Debug, PartialEq, Eq, Structural)]
pub enum PyMethodType {
    PyCFunction(Callback),
    PyCFunctionWithKeywords(Callback),
    PyNoArgsFunction(Callback),
    PyNewFunc(Callback),
    PyInitFunc(Callback),
}

/// A method: its name, its entry point, the host's calling flags, and its documentation.
#[derive(Clone, Copy, Debug, PartialEq, Eq)]
pub struct PyMethodDef {
    pub ml_name: &'static str,
    pub ml_meth: PyMethodType,
    pub ml_flags: i32,
    pub ml_doc: &'static str,
}

/// The read side of a property.
#[derive(Clone, Copy, Debug, PartialEq, Eq)]
pub struct PyGetterDef {
    pub name: &'static str,
    pub meth: Callback,
    pub doc: &'static str,
}

/// The write side of a property.
#[derive(Clone, Copy, Debug, PartialEq, Eq)]
pub struct PySetterDef {
    pub name: &'static str,
    pub meth: Callback,
    pub doc: &'static str,
}

/// One declaration of a native type, tagged with its kind.
#[derive(Clone, Copy, Debug, PartialEq, Eq)]
pub enum PyMethodDefType {
    /// The constructor.
    New(PyMethodDef),
    /// What makes instances callable.
    Call(PyMethodDef),
    /// An ordinary method.
    Method(PyMethodDef),
    /// A class method.
    Class(PyMethodDef),
    /// A static method.
    Static(PyMethodDef),
    /// The read side of a property.
    Getter(PyGetterDef),
    /// The write side of a property.
    Setter(PySetterDef),
}

impl PyMethodType {
    /// The entry point, whatever its calling convention.
    pub open spec fn callback(self) -> Callback {
        match self {
            PyMethodType::PyCFunction(meth) => meth,
            PyMethodType::PyCFunctionWithKeywords(meth) => meth,
            PyMethodType::PyNoArgsFunction(meth) => meth,
            PyMethodType::PyNewFunc(meth) => meth,
            PyMethodType::PyInitFunc(meth) => meth,
        }
    }
}

impl PyMethodDef {
    /// The entry of the host's method table for this method.
    pub open spec fn method_def(self) -> MethodDef {
        MethodDef {
            ml_name: Some(self.ml_name),
            ml_meth: Some(self.ml_meth.callback()),
            ml_flags: self.ml_flags,
            ml_doc: Some(self.ml_doc),
        }
    }

    /// The entry of the host's method table for this method.
    pub fn as_method_def(&self) -> (def: MethodDef)
        ensures
            def == self.method_def(),
    {
        let meth = match self.ml_meth {
            PyMethodType::PyCFunction(meth) => meth,
            PyMethodType::PyCFunctionWithKeywords(meth) => meth,
            PyMethodType::PyNoArgsFunction(meth) => meth,
            PyMethodType::PyNewFunc(meth) => meth,
            PyMethodType::PyInitFunc(meth) => meth,
        };
        MethodDef {
            ml_name: Some(self.ml_name),
            ml_meth: Some(meth),
            ml_flags: self.ml_flags,
            ml_doc: Some(self.ml_doc),
        }
    }
}

/// A property entry that takes a name and a documentation only where it has none yet.
pub open spec fn named(dst: GetSetDef, name: &'static str, doc: &'static str) -> GetSetDef {
    GetSetDef {
        name: if dst.name is None {
            Some(name)
        } else {
            dst.name
        },
        doc: if dst.doc is None {
            Some(doc)
        } else {
            dst.doc
        },
        ..dst
    }
}

impl PyGetterDef {
    /// The property entry `dst` with this getter as its read side.
    pub open spec fn copied_to(self, dst: GetSetDef) -> GetSetDef {
        GetSetDef { get: Some(Accessor::Native(self.meth)), ..named(dst, self.name, self.doc) }
    }

    /// Makes this getter the read side of the property entry `dst`. The entry takes the
    /// getter's name and documentation where it has none.
    pub fn copy_to(&self, dst: &mut GetSetDef)
        ensures
            *final(dst) == self.copied_to(*old(dst)),
    {
        if dst.name.is_none() {
            dst.name = Some(self.name);
        }
        if dst.doc.is_none() {
            dst.doc = Some(self.doc);
        }
        dst.get = Some(Accessor::Native(self.meth));
    }
}

impl PySetterDef {
    /// The property entry `dst` with this setter as its write side.
    pub open spec fn copied_to(self, dst: GetSetDef) -> GetSetDef {
        GetSetDef { set: Some(Accessor::Native(self.meth)), ..named(dst, self.name, self.doc) }
    }

    /// Makes this setter the write side of the property entry `dst`. The entry takes the
    /// setter's name and documentation where it has none.
    pub fn copy_to(&self, dst: &mut GetSetDef)
        ensures
            *final(dst) == self.copied_to(*old(dst)),
    {
        if dst.name.is_none() {
            dst.name = Some(self.name);
        }
        if dst.doc.is_none() {
            dst.doc = Some(self.doc);
        }
        dst.set = Some(Accessor::Native(self.meth));
    }
}

} // verus!
