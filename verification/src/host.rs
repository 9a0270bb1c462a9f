//! The records of the host runtime that this library fills in: the type object, and the
//! entries of its method and property tables.

use vstd::prelude::*;

verus! {

/// A native function that the host runtime can call, known by its place in the table of
/// entry points that the embedding program keeps.
#[derive(Clone, Copy, Debug, PartialEq, Eq, Structural)]
pub struct Callback(pub usize);

/// A protocol table: a fixed-size record of entry points that a type object owns once it is
/// installed. Only its identity matters here.
#[derive(Clone, Copy, Debug, PartialEq, Eq, Structural)]
pub struct ProtocolTable(pub usize);

/// A type of the host runtime, known by its place among the types that were declared.
#[derive(Clone, Copy, Debug, PartialEq, Eq, Structural)]
pub struct TypeId(pub usize);

/// The flags of a type object that every type has.
pub const TPFLAGS_DEFAULT: u64 = 0x40000;

/// The flag of a type object that is allocated on the heap.
pub const TPFLAGS_HEAPTYPE: u64 = 0x200;

/// The flag of a type object that can be subclassed.
pub const TPFLAGS_BASETYPE: u64 = 0x400;

/// The flag of a type object whose instances take part in cyclic garbage collection.
pub const TPFLAGS_HAVE_GC: u64 = 0x4000;

/// What reads or writes a property.
#[derive(Clone, Copy, Debug, PartialEq, Eq, Structural)]
pub enum Accessor {
    /// An entry point of the embedding program.
    Native(Callback),
    /// The host's own accessor of the instance dictionary.
    GenericDict,
}

/// One entry of a method table. The entry with nothing in it ends the table.
#[derive(Clone, Copy, Debug, PartialEq, Eq)]
pub struct MethodDef {
    pub ml_name: Option<&'static str>,
    pub ml_meth: Option<Callback>,
    pub ml_flags: i32,
    pub ml_doc: Option<&'static str>,
}

/// One entry of a property table. The entry with nothing in it ends the table.
#[derive(Clone, Copy, Debug, PartialEq, Eq)]
pub struct GetSetDef {
    pub name: Option<&'static str>,
    pub get: Option<Accessor>,
    pub set: Option<Accessor>,
    pub doc: Option<&'static str>,
}

/// The entry that ends a method table.
pub open spec fn method_sentinel() -> MethodDef {
    MethodDef { ml_name: None, ml_meth: None, ml_flags: 0, ml_doc: None }
}

/// The entry that ends a property table, and from which every entry starts.
pub open spec fn getset_init() -> GetSetDef {
    GetSetDef { name: None, get: None, set: None, doc: None }
}

/// The entry that gives access to the instance dictionary.
pub open spec fn getset_dict() -> GetSetDef {
    GetSetDef {
        name: Some("__dict__"),
        get: Some(Accessor::GenericDict),
        set: Some(Accessor::GenericDict),
        doc: None,
    }
}

impl MethodDef {
    /// The entry that ends a method table.
    pub fn sentinel() -> (def: MethodDef)
        ensures
            def == method_sentinel(),
    {
        MethodDef { ml_name: None, ml_meth: None, ml_flags: 0, ml_doc: None }
    }
}

impl GetSetDef {
    /// The entry that ends a property table, and from which every entry starts.
    pub fn init() -> (def: GetSetDef)
        ensures
            def == getset_init(),
    {
        GetSetDef { name: None, get: None, set: None, doc: None }
    }

    /// The entry that gives access to the instance dictionary.
    pub fn dict() -> (def: GetSetDef)
        ensures
            def == getset_dict(),
    {
        GetSetDef {
            name: Some("__dict__"),
            get: Some(Accessor::GenericDict),
            set: Some(Accessor::GenericDict),
            doc: None,
        }
    }
}

/// The fields of a host type object that registration writes, and the two allocator hooks
/// that it reads. A field that is `None` is a null pointer in the host's record.
#[derive(Debug, PartialEq, Eq)]
pub struct PyTypeObject {
    /// The qualified name, as the bytes of a buffer that ends in a terminator.
    pub tp_name: Option<Vec<u8>>,
    pub tp_doc: Option<&'static str>,
    pub tp_base: Option<TypeId>,
    pub tp_dealloc: Option<Callback>,
    pub tp_basicsize: usize,
    pub tp_dictoffset: usize,
    pub tp_weaklistoffset: usize,
    pub tp_traverse: Option<Callback>,
    pub tp_clear: Option<Callback>,
    pub tp_as_number: Option<ProtocolTable>,
    pub tp_as_mapping: Option<ProtocolTable>,
    pub tp_as_sequence: Option<ProtocolTable>,
    pub tp_as_async: Option<ProtocolTable>,
    pub tp_as_buffer: Option<ProtocolTable>,
    /// The method table, ended by the empty entry.
    pub tp_methods: Option<Vec<MethodDef>>,
    pub tp_new: Option<Callback>,
    pub tp_call: Option<Callback>,
    /// The property table, ended by the empty entry.
    pub tp_getset: Option<Vec<GetSetDef>>,
    pub tp_flags: u64,
    pub tp_alloc: Option<Callback>,
    pub tp_free: Option<Callback>,
}

/// A type object as mathematics.
pub struct TypeObject {
    pub tp_name: Option<Seq<u8>>,
    pub tp_doc: Option<&'static str>,
    pub tp_base: Option<TypeId>,
    pub tp_dealloc: Option<Callback>,
    pub tp_basicsize: nat,
    pub tp_dictoffset: nat,
    pub tp_weaklistoffset: nat,
    pub tp_traverse: Option<Callback>,
    pub tp_clear: Option<Callback>,
    pub tp_as_number: Option<ProtocolTable>,
    pub tp_as_mapping: Option<ProtocolTable>,
    pub tp_as_sequence: Option<ProtocolTable>,
    pub tp_as_async: Option<ProtocolTable>,
    pub tp_as_buffer: Option<ProtocolTable>,
    pub tp_methods: Option<Seq<MethodDef>>,
    pub tp_new: Option<Callback>,
    pub tp_call: Option<Callback>,
    pub tp_getset: Option<Seq<GetSetDef>>,
    pub tp_flags: u64,
    pub tp_alloc: Option<Callback>,
    pub tp_free: Option<Callback>,
}

/// The type object that nothing was written to.
pub open spec fn blank_type_object() -> TypeObject {
    TypeObject {
        tp_name: None,
        tp_doc: None,
        tp_base: None,
        tp_dealloc: None,
        tp_basicsize: 0,
        tp_dictoffset: 0,
        tp_weaklistoffset: 0,
        tp_traverse: None,
        tp_clear: None,
        tp_as_number: None,
        tp_as_mapping: None,
        tp_as_sequence: None,
        tp_as_async: None,
        tp_as_buffer: None,
        tp_methods: None,
        tp_new: None,
        tp_call: None,
        tp_getset: None,
        tp_flags: 0,
        tp_alloc: None,
        tp_free: None,
    }
}

impl View for PyTypeObject {
    type V = TypeObject;

    open spec fn view(&self) -> TypeObject {
        TypeObject {
            tp_name: match self.tp_name {
                Some(name) => Some(name@),
                None => None,
            },
            tp_doc: self.tp_doc,
            tp_base: self.tp_base,
            tp_dealloc: self.tp_dealloc,
            tp_basicsize: self.tp_basicsize as nat,
            tp_dictoffset: self.tp_dictoffset as nat,
            tp_weaklistoffset: self.tp_weaklistoffset as nat,
            tp_traverse: self.tp_traverse,
            tp_clear: self.tp_clear,
            tp_as_number: self.tp_as_number,
            tp_as_mapping: self.tp_as_mapping,
            tp_as_sequence: self.tp_as_sequence,
            tp_as_async: self.tp_as_async,
            tp_as_buffer: self.tp_as_buffer,
            tp_methods: match self.tp_methods {
                Some(methods) => Some(methods@),
                None => None,
            },
            tp_new: self.tp_new,
            tp_call: self.tp_call,
            tp_getset: match self.tp_getset {
                Some(getset) => Some(getset@),
                None => None,
            },
            tp_flags: self.tp_flags,
            tp_alloc: self.tp_alloc,
            tp_free: self.tp_free,
        }
    }
}

impl PyTypeObject {
    /// A type object that nothing was written to.
    pub fn new() -> (type_object: PyTypeObject)
        ensures
            type_object@ == blank_type_object(),
    {
        PyTypeObject {
            tp_name: None,
            tp_doc: None,
            tp_base: None,
            tp_dealloc: None,
            tp_basicsize: 0,
            tp_dictoffset: 0,
            tp_weaklistoffset: 0,
            tp_traverse: None,
            tp_clear: None,
            tp_as_number: None,
            tp_as_mapping: None,
            tp_as_sequence: None,
            tp_as_async: None,
            tp_as_buffer: None,
            tp_methods: None,
            tp_new: None,
            tp_call: None,
            tp_getset: None,
            tp_flags: 0,
            tp_alloc: None,
            tp_free: None,
        }
    }
}

} // verus!
