//! Native types in the host runtime: the region that holds an instance, the initializer
//! that fills it, its teardown, and the type object that registration fills in.

use vstd::prelude::*;
use vstd::string::*;

use crate::err::ExceptionKind;
use crate::err::PyErr;
use crate::err::PyErrView;
use crate::err::PyResult;
use crate::host::getset_dict;
use crate::host::getset_init;
use crate::host::method_sentinel;
use crate::host::Callback;
use crate::host::GetSetDef;
use crate::host::MethodDef;
use crate::host::PyTypeObject;
use crate::host::TypeId;
use crate::host::TypeObject;
use crate::host::TPFLAGS_BASETYPE;
use crate::host::TPFLAGS_DEFAULT;
use crate::host::TPFLAGS_HAVE_GC;
use crate::host::TPFLAGS_HEAPTYPE;
use crate::layout::BaseLayout;
use crate::layout::LayoutDescriptor;
use crate::methods::PyGetterDef;
use crate::methods::PyMethodDef;
use crate::methods::PyMethodDefType;
use crate::methods::PyMethodType;
use crate::methods::PySetterDef;
use crate::python::Python;
use crate::text::c_string;
use crate::text::str_eq;
use crate::text::terminated;
use crate::type_object::PyProtocols;
use crate::type_object::PyTypeInfo;
use crate::type_object::BASETYPE;
use crate::type_object::EXTENDED;
use crate::type_object::GC;

verus! {

/// An object of the host runtime, known by the number that the embedding program gave it.
#[derive(Clone, Copy, Debug, PartialEq, Eq, Structural)]
pub struct ObjectRef(pub usize);

/// The dictionary slot or the weak-reference slot of one level of an instance.
#[derive(Clone, Copy, Debug, PartialEq, Eq, Structural)]
pub enum Slot {
    /// The type has no such slot.
    Absent,
    /// The slot is there and holds nothing.
    Null,
    /// The slot holds an object of the host runtime.
    Object(ObjectRef),
}

/// What the teardown of an instance leaves for the host runtime to do.
#[derive(Clone, Copy, Debug, PartialEq, Eq, Structural)]
pub enum Release {
    /// Give up the reference to the dictionary that a dictionary slot held.
    Dict(ObjectRef),
    /// Clear the weak references to the instance.
    WeakRefs,
}

/// Where the memory of a new instance comes from.
#[derive(Clone, Copy, Debug, PartialEq, Eq, Structural)]
pub enum Allocation {
    /// The constructor of the host-native base type.
    BaseNew(Callback),
    /// The allocation hook of the type itself.
    TypeAlloc(Callback),
    /// The host's generic allocation.
    GenericAlloc,
}

/// How the memory of an instance is given back when the type has no free hook of its own.
#[derive(Clone, Copy, Debug, PartialEq, Eq, Structural)]
pub struct FreeFallback {
    /// Whether the memory goes back through the garbage collector's free.
    pub gc: bool,
    /// Whether the reference that the instance held on its type is given up.
    pub decref_type: bool,
}

/// What happens to the memory of an instance after its teardown.
#[derive(Clone, Copy, Debug, PartialEq, Eq, Structural)]
pub enum Deallocation {
    /// The finalizer brought the instance back to life: its memory stays.
    Resurrected,
    /// The free hook of the type takes the memory.
    Free(Callback),
    /// The memory is given back by hand.
    Fallback(FreeFallback),
}

/// The part of an instance that the host runtime made itself.
#[derive(Clone, Copy, Debug, PartialEq, Eq)]
pub struct PyNativeObject {
    pub name: &'static str,
    pub size: usize,
}

/// The base object of one level of an instance.
#[derive(Debug, PartialEq, Eq)]
pub enum PyBaseObject<T> {
    /// An object of the host runtime's own making: nothing lies below it.
    Native(PyNativeObject),
    /// The region of the native base type.
    Class(Box<PyClassShell<T>>),
}

/// The region of an instance of a native type: its base object, its payload once it is
/// initialized, and its dictionary and weak-reference slots.
#[derive(Debug, PartialEq, Eq)]
pub struct PyClassShell<T> {
    /// The name of the type of this level.
    pub name: &'static str,
    /// Whether construction has to supply the payload of this level.
    pub need_init: bool,
    pub ob_base: PyBaseObject<T>,
    pub pyclass: Option<T>,
    pub dict: Slot,
    pub weakref: Slot,
}

/// The values that construction supplies, level by level: the payload of this level, and
/// what it supplies for the base, once that was asked for.
#[derive(Debug, PartialEq, Eq)]
pub struct PyClassInitializer<T> {
    pub init: Option<T>,
    pub super_init: Option<Box<PyClassInitializer<T>>>,
}

/// What applying an initializer to a region comes to: the region afterwards, and the name of
/// the type whose payload was required and not supplied, if there was one.
pub struct Applied<T> {
    pub shell: PyClassShell<T>,
    pub missing: Option<&'static str>,
}

/// The slot of a fresh instance: empty where the layout has one.
pub open spec fn fresh_slot(offset: Option<usize>) -> Slot {
    if offset is Some {
        Slot::Null
    } else {
        Slot::Absent
    }
}

/// The base object of a fresh instance of the given layout.
pub open spec fn fresh_base<T>(layout: BaseLayout) -> PyBaseObject<T>
    decreases layout,
{
    match layout {
        BaseLayout::Native { name, size } => PyBaseObject::Native(PyNativeObject { name, size }),
        BaseLayout::Class(layout) => PyBaseObject::Class(Box::new(fresh_shell(*layout))),
    }
}

/// The region of a fresh instance of the given layout: no payload at any level, and every
/// slot that the layout has empty.
pub open spec fn fresh_shell<T>(layout: LayoutDescriptor) -> PyClassShell<T>
    decreases layout,
{
    PyClassShell {
        name: layout.name,
        need_init: layout.spec_need_init(),
        ob_base: fresh_base(layout.base),
        pyclass: None,
        dict: fresh_slot(layout.dict_offset),
        weakref: fresh_slot(layout.weakref_offset),
    }
}

/// The nearest level at or below `base` whose payload has to be supplied, by the name of its
/// type.
pub open spec fn first_required<T>(base: PyBaseObject<T>) -> Option<&'static str>
    decreases base,
{
    match base {
        PyBaseObject::Native(_) => None,
        PyBaseObject::Class(shell) => if shell.need_init {
            Some(shell.name)
        } else {
            first_required(shell.ob_base)
        },
    }
}

/// The result of applying `init` to `shell`, from this level down.
///
/// A payload that is supplied is written to its level. A level whose payload is required
/// and not supplied ends the application, and what was written above it stays. Where the
/// initializer supplies nothing for the base, no level of the base may require a payload.
pub open spec fn apply_chain<T>(init: PyClassInitializer<T>, shell: PyClassShell<T>) -> Applied<T>
    decreases shell,
{
    if init.init is None && shell.need_init {
        Applied { shell, missing: Some(shell.name) }
    } else {
        let own = match init.init {
            Some(value) => PyClassShell { pyclass: Some(value), ..shell },
            None => shell,
        };
        match init.super_init {
            Some(super_init) => match own.ob_base {
                PyBaseObject::Class(base) => {
                    let below = apply_chain(*super_init, *base);
                    Applied {
                        shell: PyClassShell {
                            ob_base: PyBaseObject::Class(Box::new(below.shell)),
                            ..own
                        },
                        missing: below.missing,
                    }
                },
                PyBaseObject::Native(_) => Applied { shell: own, missing: None },
            },
            None => Applied { shell: own, missing: first_required(own.ob_base) },
        }
    }
}

/// A slot after teardown: empty where there is one.
pub open spec fn cleared(slot: Slot) -> Slot {
    match slot {
        Slot::Absent => Slot::Absent,
        _ => Slot::Null,
    }
}

/// The base object after the teardown of every level of it.
pub open spec fn torn_down_base<T>(base: PyBaseObject<T>) -> PyBaseObject<T>
    decreases base,
{
    match base {
        PyBaseObject::Native(native) => PyBaseObject::Native(native),
        PyBaseObject::Class(shell) => PyBaseObject::Class(Box::new(torn_down(*shell))),
    }
}

/// The region after the teardown of every level: no payload, and every slot empty.
pub open spec fn torn_down<T>(shell: PyClassShell<T>) -> PyClassShell<T>
    decreases shell,
{
    PyClassShell {
        pyclass: None,
        dict: cleared(shell.dict),
        weakref: cleared(shell.weakref),
        ob_base: torn_down_base(shell.ob_base),
        ..shell
    }
}

/// What the teardown of one level leaves for the host to do: the dictionary first, then the
/// weak references.
pub open spec fn level_releases(dict: Slot, weakref: Slot) -> Seq<Release> {
    (match dict {
        Slot::Object(object) => seq![Release::Dict(object)],
        _ => Seq::empty(),
    }) + (match weakref {
        Slot::Object(_) => seq![Release::WeakRefs],
        _ => Seq::empty(),
    })
}

/// What the teardown of the base leaves for the host to do.
pub open spec fn base_releases<T>(base: PyBaseObject<T>) -> Seq<Release>
    decreases base,
{
    match base {
        PyBaseObject::Native(_) => Seq::empty(),
        PyBaseObject::Class(shell) => releases(*shell),
    }
}

/// What the teardown of a region leaves for the host to do, from the top level down.
pub open spec fn releases<T>(shell: PyClassShell<T>) -> Seq<Release>
    decreases shell,
{
    level_releases(shell.dict, shell.weakref) + base_releases(shell.ob_base)
}

/// Whether a class with the given flags asks for the placement of its host-native base.
pub open spec fn extended(class_flags: usize) -> bool {
    class_flags & EXTENDED != 0
}

/// Where the memory of a new instance comes from: the constructor of the base, where the
/// class asks for the placement of a host-native base and that base has a constructor;
/// else the allocation hook of the type; else the host's generic allocation.
pub open spec fn allocation(
    class_flags: usize,
    base_is_native: bool,
    base_new: Option<Callback>,
    tp_alloc: Option<Callback>,
) -> Allocation {
    if extended(class_flags) && base_is_native && base_new is Some {
        Allocation::BaseNew(base_new->0)
    } else {
        match tp_alloc {
            Some(alloc) => Allocation::TypeAlloc(alloc),
            None => Allocation::GenericAlloc,
        }
    }
}

/// How memory is given back by hand for a type with the given flags.
pub open spec fn free_fallback(tp_flags: u64) -> FreeFallback {
    FreeFallback {
        gc: tp_flags & TPFLAGS_HAVE_GC != 0,
        decref_type: tp_flags & TPFLAGS_HEAPTYPE != 0,
    }
}

/// What happens to the memory of an instance after its teardown, given what the host's
/// finalizer hook returned.
pub open spec fn deallocation(finalizer: i32, type_object: TypeObject) -> Deallocation {
    if finalizer < 0 {
        Deallocation::Resurrected
    } else {
        match type_object.tp_free {
            Some(free) => Deallocation::Free(free),
            None => Deallocation::Fallback(free_fallback(type_object.tp_flags)),
        }
    }
}

/// Picks where the memory of a new instance of a type comes from.
pub fn default_alloc(
    class_flags: usize,
    base: &BaseLayout,
    base_type_object: &PyTypeObject,
    type_object: &PyTypeObject,
) -> (route: Allocation)
    ensures
        route == allocation(
            class_flags,
            base is Native,
            base_type_object@.tp_new,
            type_object@.tp_alloc,
        ),
{
    if class_flags & EXTENDED != 0 && base.is_native() {
        if let Some(base_new) = base_type_object.tp_new {
            return Allocation::BaseNew(base_new);
        }
    }
    match type_object.tp_alloc {
        Some(alloc) => Allocation::TypeAlloc(alloc),
        None => Allocation::GenericAlloc,
    }
}

/// How the memory of an instance is given back when its type has no free hook: through the
/// collector's free where the type takes part in garbage collection, and with the reference
/// on the type given up where the type lives on the heap.
pub fn tp_free_fallback(type_object: &PyTypeObject) -> (fallback: FreeFallback)
    ensures
        fallback == free_fallback(type_object@.tp_flags),
{
    FreeFallback {
        gc: type_object.tp_flags & TPFLAGS_HAVE_GC != 0,
        decref_type: type_object.tp_flags & TPFLAGS_HEAPTYPE != 0,
    }
}

/// Decides what happens to the memory of an instance after its teardown. `finalizer` is
/// what the host's finalizer hook returned for the instance: below zero where it brought
/// the instance back to life.
pub fn dealloc(finalizer: i32, type_object: &PyTypeObject) -> (route: Deallocation)
    ensures
        route == deallocation(finalizer, type_object@),
{
    if finalizer < 0 {
        return Deallocation::Resurrected;
    }
    match type_object.tp_free {
        Some(free) => Deallocation::Free(free),
        None => Deallocation::Fallback(tp_free_fallback(type_object)),
    }
}

/// Whether `made` is what making an instance of `layout` from `init` comes to: the fresh
/// region of that layout with the initializer applied, or the error for the type whose
/// payload was required and not supplied.
pub open spec fn creates<T>(
    init: PyClassInitializer<T>,
    layout: LayoutDescriptor,
    made: PyResult<PyClassShell<T>>,
) -> bool {
    match made {
        Ok(shell) => apply_chain(init, fresh_shell(layout)).missing is None && shell
            == apply_chain(init, fresh_shell(layout)).shell,
        Err(e) => apply_chain(init, fresh_shell(layout)).missing matches Some(name) && e@
            == not_initialized(name@),
    }
}

/// The message for a type whose payload was required and not supplied.
pub open spec fn not_initialized_message(name: Seq<char>) -> Seq<char> {
    "Base class '"@ + name + "' is not initialized"@
}

/// The error for a type whose payload was required and not supplied.
pub open spec fn not_initialized(name: Seq<char>) -> PyErrView {
    PyErrView { kind: ExceptionKind::RuntimeError, message: not_initialized_message(name) }
}

/// The error for a type whose payload was required and not supplied.
fn base_not_initialized(name: &str) -> (e: PyErr)
    ensures
        e@ == not_initialized(name@),
{
    let mut msg = String::from_str("Base class '");
    msg.append(name);
    msg.append("' is not initialized");
    PyErr::runtime_error(msg)
}

impl<T> PyBaseObject<T> {
    /// The base object of a fresh instance of the given layout.
    pub fn new(layout: &BaseLayout) -> (base: PyBaseObject<T>)
        ensures
            base == fresh_base::<T>(*layout),
        decreases *layout,
    {
        match layout {
            BaseLayout::Native { name, size } => PyBaseObject::Native(
                PyNativeObject { name: *name, size: *size },
            ),
            BaseLayout::Class(layout) => PyBaseObject::Class(Box::new(PyClassShell::new(layout))),
        }
    }

    /// Tears down every level of the base object, and adds what is left for the host to do
    /// to `released`.
    pub fn py_drop(&mut self, released: &mut Vec<Release>)
        ensures
            *final(self) == torn_down_base(*old(self)),
            final(released)@ == old(released)@ + base_releases(*old(self)),
        decreases *old(self),
    {
        match self {
            PyBaseObject::Native(_) => {
                assert(released@ =~= old(released)@ + base_releases(*old(self)));
            },
            PyBaseObject::Class(shell) => {
                shell.py_drop(released);
            },
        }
    }

    /// Whether the base is an object of the host runtime's own making.
    pub fn is_native(&self) -> (native: bool)
        ensures
            native == (self is Native),
    {
        match self {
            PyBaseObject::Native(_) => true,
            PyBaseObject::Class(_) => false,
        }
    }

    /// The nearest level at or below this one whose payload has to be supplied, by the name
    /// of its type.
    pub fn first_required(&self) -> (name: Option<&'static str>)
        ensures
            name == first_required(*self),
        decreases *self,
    {
        match self {
            PyBaseObject::Native(_) => None,
            PyBaseObject::Class(shell) => if shell.need_init {
                Some(shell.name)
            } else {
                shell.ob_base.first_required()
            },
        }
    }
}

impl<T> PyClassShell<T> {
    /// The region of a fresh instance of the given layout: no payload at any level, and
    /// every slot that the layout has empty.
    pub fn new(layout: &LayoutDescriptor) -> (shell: PyClassShell<T>)
        ensures
            shell == fresh_shell::<T>(*layout),
        decreases *layout,
    {
        PyClassShell {
            name: layout.name,
            need_init: layout.need_init(),
            ob_base: PyBaseObject::new(&layout.base),
            pyclass: None,
            dict: if layout.dict_offset.is_some() {
                Slot::Null
            } else {
                Slot::Absent
            },
            weakref: if layout.weakref_offset.is_some() {
                Slot::Null
            } else {
                Slot::Absent
            },
        }
    }

    /// The base object.
    pub fn get_super(&self) -> (base: &PyBaseObject<T>)
        ensures
            *base == self.ob_base,
    {
        &self.ob_base
    }

    /// The base object, to change it in place.
    pub fn get_super_mut(&mut self) -> (base: &mut PyBaseObject<T>)
        ensures
            *base == old(self).ob_base,
            *final(self) == (PyClassShell { ob_base: *final(base), ..*old(self) }),
    {
        &mut self.ob_base
    }

    /// The base object, where this level has one to initialize: it always has.
    pub fn get_super_or(&mut self) -> (base: Option<&mut PyBaseObject<T>>)
        ensures
            base matches Some(base) && *base == old(self).ob_base && *final(self) == (PyClassShell {
                ob_base: *final(base),
                ..*old(self)
            }),
    {
        Some(&mut self.ob_base)
    }

    /// The payload of this level, once it is initialized.
    pub fn payload(&self) -> (payload: Option<&T>)
        ensures
            match payload {
                Some(value) => self.pyclass == Some(*value),
                None => self.pyclass is None,
            },
    {
        self.pyclass.as_ref()
    }

    /// Tears down every level, from the top down: the payload is dropped, and the slots are
    /// emptied. What they held is added to `released`, for the host to let go of.
    pub fn py_drop(&mut self, released: &mut Vec<Release>)
        ensures
            *final(self) == torn_down(*old(self)),
            final(released)@ == old(released)@ + releases(*old(self)),
        decreases *old(self),
    {
        self.pyclass = None;
        if let Slot::Object(object) = self.dict {
            released.push(Release::Dict(object));
        }
        if let Slot::Object(_) = self.weakref {
            released.push(Release::WeakRefs);
        }
        assert(released@ =~= old(released)@ + level_releases(self.dict, self.weakref));
        self.dict = match self.dict {
            Slot::Absent => Slot::Absent,
            _ => Slot::Null,
        };
        self.weakref = match self.weakref {
            Slot::Absent => Slot::Absent,
            _ => Slot::Null,
        };
        self.ob_base.py_drop(released);
        assert(released@ =~= old(released)@ + releases(*old(self)));
    }

    /// Writes the payload of this level.
    pub fn py_init(&mut self, value: T)
        ensures
            *final(self) == (PyClassShell { pyclass: Some(value), ..*old(self) }),
    {
        self.pyclass = Some(value);
    }
}

impl<T> PyClassInitializer<T> {
    /// An initializer that supplies `value` for this level and nothing for the base.
    pub fn from_value(value: T) -> (init: PyClassInitializer<T>)
        ensures
            init == (PyClassInitializer { init: Some(value), super_init: None }),
    {
        PyClassInitializer { init: Some(value), super_init: None }
    }

    /// An initializer that supplies nothing.
    pub fn new() -> (init: PyClassInitializer<T>)
        ensures
            init == (PyClassInitializer::<T> { init: None, super_init: None }),
    {
        PyClassInitializer { init: None, super_init: None }
    }

    /// Supplies `value` for this level, in place of what was supplied before.
    pub fn init(&mut self, value: T)
        ensures
            *final(self) == (PyClassInitializer { init: Some(value), ..*old(self) }),
    {
        self.init = Some(value);
    }

    /// The initializer of the base, made on first use as one that supplies nothing.
    pub fn get_super(&mut self) -> (base: &mut PyClassInitializer<T>)
        ensures
            *base == match old(self).super_init {
                Some(super_init) => *super_init,
                None => PyClassInitializer { init: None, super_init: None },
            },
            *final(self) == (PyClassInitializer {
                super_init: Some(Box::new(*final(base))),
                ..*old(self)
            }),
    {
        if self.super_init.is_none() {
            self.super_init = Some(Box::new(PyClassInitializer::new()));
        }
        match &mut self.super_init {
            Some(super_init) => &mut **super_init,
            None => vstd::pervasive::unreached(),
        }
    }

    /// Applies this initializer to `shell`, from the top level down: each payload that it
    /// supplies is written to its level. Fails for the first level whose payload is
    /// required and not supplied, with what was written above that level left in place.
    pub fn init_class(self, shell: &mut PyClassShell<T>) -> (done: PyResult<()>)
        ensures
            *final(shell) == apply_chain(self, *old(shell)).shell,
            match done {
                Ok(_) => apply_chain(self, *old(shell)).missing is None,
                Err(e) => apply_chain(self, *old(shell)).missing matches Some(name) && e@
                    == not_initialized(name@),
            },
        decreases *old(shell),
    {
        let PyClassInitializer { init, super_init } = self;
        match init {
            Some(value) => shell.py_init(value),
            None => if shell.need_init {
                return Err(base_not_initialized(shell.name));
            },
        }
        match super_init {
            Some(super_init) => match &mut shell.ob_base {
                PyBaseObject::Class(base) => (*super_init).init_class(&mut **base),
                PyBaseObject::Native(_) => Ok(()),
            },
            None => match shell.ob_base.first_required() {
                Some(name) => Err(base_not_initialized(name)),
                None => Ok(()),
            },
        }
    }

    /// Makes the region of a fresh instance of the given layout and applies this
    /// initializer to it.
    pub fn create_shell(self, _py: Python<'_>, layout: &LayoutDescriptor) -> (made: PyResult<
        PyClassShell<T>,
    >)
        ensures
            creates(self, *layout, made),
    {
        let mut shell = PyClassShell::new(layout);
        match self.init_class(&mut shell) {
            Ok(_) => Ok(shell),
            Err(e) => Err(e),
        }
    }
}

/// The flags of the type object of a class: those of every type; the collector's flag where
/// the type object has a traversal or a clearing hook or the class asks for collection; and
/// the subclassing flag where the class allows subclasses.
pub open spec fn class_flags(has_traverse: bool, has_clear: bool, flags: usize) -> u64 {
    let collected = if has_traverse || has_clear || flags & GC != 0 {
        TPFLAGS_DEFAULT | TPFLAGS_HAVE_GC
    } else {
        TPFLAGS_DEFAULT
    };
    if flags & BASETYPE != 0 {
        collected | TPFLAGS_BASETYPE
    } else {
        collected
    }
}

/// Whether every declaration of the kind that makes instances callable has an entry point
/// that takes keywords: the host's call slot takes no other.
pub open spec fn call_slot_supported(methods: Seq<PyMethodDefType>) -> bool {
    forall|i: int|
        0 <= i < methods.len() ==> (#[trigger] methods[i] matches PyMethodDefType::Call(def)
            ==> def.ml_meth is PyCFunctionWithKeywords)
}

/// The constructor that a class designates: that of its last constructor declaration with a
/// constructor's entry point.
pub open spec fn designated_new(methods: Seq<PyMethodDefType>) -> Option<Callback>
    decreases methods.len(),
{
    if methods.len() == 0 {
        None
    } else {
        match methods.last() {
            PyMethodDefType::New(PyMethodDef { ml_meth: PyMethodType::PyNewFunc(meth), .. }) => {
                Some(meth)
            },
            _ => designated_new(methods.drop_last()),
        }
    }
}

/// The call entry point that a class designates: that of its last call declaration.
pub open spec fn designated_call(methods: Seq<PyMethodDefType>) -> Option<Callback>
    decreases methods.len(),
{
    if methods.len() == 0 {
        None
    } else {
        match methods.last() {
            PyMethodDefType::Call(def) => Some(def.ml_meth.callback()),
            _ => designated_call(methods.drop_last()),
        }
    }
}

/// The table entries of the ordinary, class and static methods among `methods`, in declared
/// order.
pub open spec fn ordinary_methods(methods: Seq<PyMethodDefType>) -> Seq<MethodDef>
    decreases methods.len(),
{
    if methods.len() == 0 {
        Seq::empty()
    } else {
        match methods.last() {
            PyMethodDefType::Method(def) | PyMethodDefType::Class(def) | PyMethodDefType::Static(
                def,
            ) => ordinary_methods(methods.drop_last()).push(def.method_def()),
            _ => ordinary_methods(methods.drop_last()),
        }
    }
}

/// The table entries of `defs`, in order.
pub open spec fn method_defs(defs: Seq<PyMethodDef>) -> Seq<MethodDef> {
    Seq::new(defs.len(), |i: int| defs[i].method_def())
}

/// The special methods that the protocols of a class require, but for those of the
/// asynchronous protocol: object, context, mapping, number and descriptor, in that order.
pub open spec fn protocol_methods(protocols: PyProtocols) -> Seq<MethodDef> {
    method_defs(protocols.object_methods@) + method_defs(protocols.context_methods@)
        + method_defs(protocols.mapping_methods@) + method_defs(protocols.number_methods@)
        + method_defs(protocols.descr_methods@)
}

/// The merged method table of a class, without the entry that ends it: its own methods,
/// then the special methods of its protocols, those of the asynchronous protocol last.
pub open spec fn method_table(info: PyTypeInfo) -> Seq<MethodDef> {
    ordinary_methods(info.methods@) + protocol_methods(info.protocols) + method_defs(
        info.protocols.async_methods@,
    )
}

/// The name of a property entry, as text.
pub open spec fn property_name(def: GetSetDef) -> Seq<char> {
    match def.name {
        Some(name) => name@,
        None => Seq::empty(),
    }
}

/// The names of the entries of a property table, in order.
pub open spec fn property_names(table: Seq<GetSetDef>) -> Seq<Seq<char>> {
    Seq::new(table.len(), |i: int| property_name(table[i]))
}

/// A property table after a getter was merged in: into the entry of its name, or into a new
/// entry at the end.
pub open spec fn with_getter(table: Seq<GetSetDef>, getter: PyGetterDef) -> Seq<GetSetDef> {
    match property_names(table).index_of_first(getter.name@) {
        Some(i) => table.update(i, getter.copied_to(table[i])),
        None => table.push(getter.copied_to(getset_init())),
    }
}

/// A property table after a setter was merged in: into the entry of its name, or into a new
/// entry at the end.
pub open spec fn with_setter(table: Seq<GetSetDef>, setter: PySetterDef) -> Seq<GetSetDef> {
    match property_names(table).index_of_first(setter.name@) {
        Some(i) => table.update(i, setter.copied_to(table[i])),
        None => table.push(setter.copied_to(getset_init())),
    }
}

/// The merged property table of the getters and setters among `methods`, without the entry
/// that ends it: one entry for each name, in the order in which the names first occur.
pub open spec fn properties(methods: Seq<PyMethodDefType>) -> Seq<GetSetDef>
    decreases methods.len(),
{
    if methods.len() == 0 {
        Seq::empty()
    } else {
        match methods.last() {
            PyMethodDefType::Getter(getter) => with_getter(
                properties(methods.drop_last()),
                getter,
            ),
            PyMethodDefType::Setter(setter) => with_setter(
                properties(methods.drop_last()),
                setter,
            ),
            _ => properties(methods.drop_last()),
        }
    }
}

/// Sets the flags of the type object of a class.
pub fn py_class_flags(info: &PyTypeInfo, type_object: &mut PyTypeObject)
    ensures
        final(type_object)@ == (TypeObject {
            tp_flags: class_flags(
                old(type_object)@.tp_traverse is Some,
                old(type_object)@.tp_clear is Some,
                info.flags,
            ),
            ..old(type_object)@
        }),
{
    if type_object.tp_traverse.is_some() || type_object.tp_clear.is_some() || info.flags & GC
        != 0 {
        type_object.tp_flags = TPFLAGS_DEFAULT | TPFLAGS_HAVE_GC;
    } else {
        type_object.tp_flags = TPFLAGS_DEFAULT;
    }
    if info.flags & BASETYPE != 0 {
        type_object.tp_flags |= TPFLAGS_BASETYPE;
    }
}

/// Whether every declaration of the kind that makes instances callable has an entry point
/// that takes keywords.
pub fn check_call_slot(methods: &[PyMethodDefType]) -> (supported: bool)
    ensures
        supported == call_slot_supported(methods@),
{
    let mut i: usize = 0;
    while i < methods.len()
        invariant
            i <= methods.len(),
            call_slot_supported(methods@.take(i as int)),
        decreases methods.len() - i,
    {
        if let PyMethodDefType::Call(def) = methods[i] {
            match def.ml_meth {
                PyMethodType::PyCFunctionWithKeywords(_) => {},
                _ => {
                    return false;
                },
            }
        }
        i += 1;
        assert forall|j: int| 0 <= j < i implies (#[trigger] methods@.take(i as int)[j]
            matches PyMethodDefType::Call(def) ==> def.ml_meth is PyCFunctionWithKeywords) by {
            if j < i - 1 {
                assert(methods@.take(i - 1)[j] == methods@[j]);
            }
        }
    }
    assert(methods@.take(i as int) =~= methods@);
    true
}

/// Appends the table entries of `methods` to `defs`.
fn push_method_defs(defs: &mut Vec<MethodDef>, methods: &Vec<PyMethodDef>)
    ensures
        final(defs)@ == old(defs)@ + method_defs(methods@),
{
    let mut i: usize = 0;
    while i < methods.len()
        invariant
            i <= methods.len(),
            defs@ == old(defs)@ + method_defs(methods@.take(i as int)),
        decreases methods.len() - i,
    {
        defs.push(methods[i].as_method_def());
        i += 1;
        assert(defs@ =~= old(defs)@ + method_defs(methods@.take(i as int)));
    }
    assert(methods@.take(i as int) =~= methods@);
}

/// Appends the special methods of the asynchronous protocol of a class to `defs`.
pub fn py_class_async_methods(info: &PyTypeInfo, defs: &mut Vec<MethodDef>)
    ensures
        final(defs)@ == old(defs)@ + method_defs(info.protocols.async_methods@),
{
    push_method_defs(defs, &info.protocols.async_methods);
}

/// The constructor and the call entry point that a class designates, and its merged method
/// table without the entry that ends it.
pub fn py_class_method_defs(info: &PyTypeInfo) -> (found: (
    Option<Callback>,
    Option<Callback>,
    Vec<MethodDef>,
))
    requires
        call_slot_supported(info.methods@),
    ensures
        found.0 == designated_new(info.methods@),
        found.1 == designated_call(info.methods@),
        found.2@ == method_table(*info),
{
    let mut defs: Vec<MethodDef> = Vec::new();
    let mut call: Option<Callback> = None;
    let mut new: Option<Callback> = None;
    let methods = &info.methods;

    let mut i: usize = 0;
    while i < methods.len()
        invariant
            i <= methods.len(),
            call_slot_supported(methods@),
            new == designated_new(methods@.take(i as int)),
            call == designated_call(methods@.take(i as int)),
            defs@ == ordinary_methods(methods@.take(i as int)),
        decreases methods.len() - i,
    {
        assert(methods@.take(i + 1).drop_last() =~= methods@.take(i as int));
        assert(methods@.take(i + 1).last() == methods@[i as int]);
        match methods[i] {
            PyMethodDefType::New(def) => {
                if let PyMethodType::PyNewFunc(meth) = def.ml_meth {
                    new = Some(meth);
                }
            },
            PyMethodDefType::Call(def) => {
                if let PyMethodType::PyCFunctionWithKeywords(meth) = def.ml_meth {
                    call = Some(meth);
                }
            },
            PyMethodDefType::Method(def) | PyMethodDefType::Class(def) | PyMethodDefType::Static(
                def,
            ) => {
                defs.push(def.as_method_def());
            },
            _ => {},
        }
        i += 1;
    }
    assert(methods@.take(i as int) =~= methods@);

    push_method_defs(&mut defs, &info.protocols.object_methods);
    push_method_defs(&mut defs, &info.protocols.context_methods);
    push_method_defs(&mut defs, &info.protocols.mapping_methods);
    push_method_defs(&mut defs, &info.protocols.number_methods);
    push_method_defs(&mut defs, &info.protocols.descr_methods);
    assert(defs@ =~= ordinary_methods(methods@) + protocol_methods(info.protocols));

    py_class_async_methods(info, &mut defs);

    (new, call, defs)
}

/// The place of the entry of a property table that is called `name`.
fn property_position(table: &Vec<GetSetDef>, name: &str) -> (found: Option<usize>)
    ensures
        match found {
            Some(i) => i < table@.len() && property_names(table@).index_of_first(name@) == Some(
                i as int,
            ),
            None => property_names(table@).index_of_first(name@) is None,
        },
{
    let ghost names = property_names(table@);
    let mut i: usize = 0;
    while i < table.len()
        invariant
            i <= table.len(),
            names == property_names(table@),
            forall|j: int| 0 <= j < i ==> names[j] != name@,
        decreases table.len() - i,
    {
        let same = match table[i].name {
            Some(entry_name) => str_eq(entry_name, name),
            None => {
                proof {
                    reveal_strlit("");
                    assert(""@ =~= Seq::<char>::empty());
                }
                str_eq("", name)
            },
        };
        assert(same == (names[i as int] == name@));
        if same {
            proof {
                assert(names[i as int] == name@);
                names.index_of_first_ensures(name@);
            }
            return Some(i);
        }
        i += 1;
    }
    proof {
        names.index_of_first_ensures(name@);
    }
    None
}

/// The merged property table of a class, without the entry that ends it: one entry for each
/// property name, which holds the getter and the setter of that name.
pub fn py_class_properties(info: &PyTypeInfo) -> (table: Vec<GetSetDef>)
    ensures
        table@ == properties(info.methods@),
{
    let mut defs: Vec<GetSetDef> = Vec::new();
    let methods = &info.methods;

    let mut i: usize = 0;
    while i < methods.len()
        invariant
            i <= methods.len(),
            defs@ == properties(methods@.take(i as int)),
        decreases methods.len() - i,
    {
        assert(methods@.take(i + 1).drop_last() =~= methods@.take(i as int));
        assert(methods@.take(i + 1).last() == methods@[i as int]);
        match methods[i] {
            PyMethodDefType::Getter(getter) => {
                match property_position(&defs, getter.name) {
                    Some(at) => {
                        let mut def = defs[at];
                        getter.copy_to(&mut def);
                        defs.set(at, def);
                    },
                    None => {
                        let mut def = GetSetDef::init();
                        getter.copy_to(&mut def);
                        defs.push(def);
                    },
                }
            },
            PyMethodDefType::Setter(setter) => {
                match property_position(&defs, setter.name) {
                    Some(at) => {
                        let mut def = defs[at];
                        setter.copy_to(&mut def);
                        defs.set(at, def);
                    },
                    None => {
                        let mut def = GetSetDef::init();
                        setter.copy_to(&mut def);
                        defs.push(def);
                    },
                }
            },
            _ => {},
        }
        i += 1;
    }
    assert(methods@.take(i as int) =~= methods@);
    defs
}

/// The name under which the host knows a type: the module and the name of the type with a
/// dot between them, or the name alone where no module is given.
pub open spec fn qualified_name(module_name: Option<Seq<char>>, name: Seq<char>) -> Seq<char> {
    match module_name {
        Some(module_name) => module_name + "."@ + name,
        None => name,
    }
}

/// The documentation that a type object points to: none where the class has only the
/// character that ends it.
pub open spec fn documentation(description: &'static str) -> Option<&'static str> {
    if description@ == "\0"@ {
        None
    } else {
        Some(description)
    }
}

/// A type object with the documentation and the base of a class linked in, which is as far
/// as registration gets where the name cannot be written.
pub open spec fn linked(
    type_object: TypeObject,
    info: PyTypeInfo,
    base: Option<TypeId>,
) -> TypeObject {
    TypeObject { tp_doc: documentation(info.description), tp_base: base, ..type_object }
}

/// The property table of a class, without the entry that ends it: its merged properties,
/// and the access to the instance dictionary where instances have one.
pub open spec fn property_table(info: PyTypeInfo) -> Seq<GetSetDef> {
    if info.layout.dict_offset is Some {
        properties(info.methods@).push(getset_dict())
    } else {
        properties(info.methods@)
    }
}

/// A hook that a class supplies, or else what the type object already had.
pub open spec fn installed(hook: Option<Callback>, before: Option<Callback>) -> Option<
    Callback,
> {
    match hook {
        Some(hook) => Some(hook),
        None => before,
    }
}

/// The type object of a class as registration leaves it for the host to finalize, with
/// `name` as the buffer of its qualified name.
///
/// The documentation, the base, the name, the entry point that destroys instances and the
/// size of an instance are written. The offsets of the dictionary and weak-reference slots
/// are written where the layout has those slots, the collector's hooks where the class has
/// them. Each protocol table is the one that the class supplies, if it supplies one. The
/// method table and the property table are written where they have entries, each ended by
/// its empty entry, and the constructor and call slots are what the class designates. The
/// flags are computed last, from the hooks then in place.
pub open spec fn initialized(
    type_object: TypeObject,
    info: PyTypeInfo,
    base: Option<TypeId>,
    name: Seq<u8>,
) -> TypeObject {
    let tp_traverse = installed(info.protocols.gc_traverse, type_object.tp_traverse);
    let tp_clear = installed(info.protocols.gc_clear, type_object.tp_clear);
    TypeObject {
        tp_name: Some(name),
        tp_doc: documentation(info.description),
        tp_base: base,
        tp_dealloc: Some(info.dealloc),
        tp_basicsize: info.layout.size as nat,
        tp_dictoffset: match info.layout.dict_offset {
            Some(offset) => offset as nat,
            None => type_object.tp_dictoffset,
        },
        tp_weaklistoffset: match info.layout.weakref_offset {
            Some(offset) => offset as nat,
            None => type_object.tp_weaklistoffset,
        },
        tp_traverse,
        tp_clear,
        tp_as_number: info.protocols.number,
        tp_as_mapping: info.protocols.mapping,
        tp_as_sequence: info.protocols.sequence,
        tp_as_async: info.protocols.pyasync,
        tp_as_buffer: info.protocols.buffer,
        tp_methods: if method_table(info).len() > 0 {
            Some(method_table(info).push(method_sentinel()))
        } else {
            type_object.tp_methods
        },
        tp_new: designated_new(info.methods@),
        tp_call: designated_call(info.methods@),
        tp_getset: if property_table(info).len() > 0 {
            Some(property_table(info).push(getset_init()))
        } else {
            type_object.tp_getset
        },
        tp_flags: class_flags(tp_traverse is Some, tp_clear is Some, info.flags),
        tp_alloc: type_object.tp_alloc,
        tp_free: type_object.tp_free,
    }
}

/// The error for a qualified name that holds a zero byte.
pub open spec fn nul_in_name() -> PyErrView {
    PyErrView {
        kind: ExceptionKind::ValueError,
        message: "Module name/type name must not contain NUL byte"@,
    }
}

/// Fills in the type object of a class, up to the point where the host runtime finalizes
/// it.
///
/// Fails where the qualified name of the type holds a zero byte, which the host would read
/// as the end of the name; the type object then has the documentation and the base linked
/// in and is otherwise as it was.
pub fn initialize_type(
    _py: Python<'_>,
    info: &PyTypeInfo,
    type_object: &mut PyTypeObject,
    base: Option<TypeId>,
    module_name: Option<&str>,
) -> (done: PyResult<()>)
    requires
        call_slot_supported(info.methods@),
    ensures
        match terminated(
            qualified_name(
                match module_name {
                    Some(module_name) => Some(module_name@),
                    None => None,
                },
                info.layout.name@,
            ),
        ) {
            Some(name) => done is Ok && final(type_object)@ == initialized(
                old(type_object)@,
                *info,
                base,
                name,
            ),
            None => done matches Err(e) && e@ == nul_in_name() && final(type_object)@ == linked(
                old(type_object)@,
                *info,
                base,
            ),
        },
{
    if str_eq(info.description, "\0") {
        type_object.tp_doc = None;
    } else {
        type_object.tp_doc = Some(info.description);
    }

    type_object.tp_base = base;

    let name = match module_name {
        Some(module_name) => {
            let mut name = String::from_str(module_name);
            name.append(".");
            name.append(info.layout.name);
            name
        },
        None => String::from_str(info.layout.name),
    };
    let name = match c_string(name.as_str()) {
        Some(name) => name,
        None => {
            return Err(
                PyErr::value_error(
                    String::from_str("Module name/type name must not contain NUL byte"),
                ),
            );
        },
    };
    type_object.tp_name = Some(name);

    type_object.tp_dealloc = Some(info.dealloc);

    type_object.tp_basicsize = info.layout.size;

    if let Some(offset) = info.layout.dict_offset {
        type_object.tp_dictoffset = offset;
    }

    if let Some(offset) = info.layout.weakref_offset {
        type_object.tp_weaklistoffset = offset;
    }

    if let Some(traverse) = info.protocols.gc_traverse {
        type_object.tp_traverse = Some(traverse);
    }
    if let Some(clear) = info.protocols.gc_clear {
        type_object.tp_clear = Some(clear);
    }

    type_object.tp_as_number = info.protocols.number;
    type_object.tp_as_mapping = info.protocols.mapping;
    type_object.tp_as_sequence = info.protocols.sequence;
    type_object.tp_as_async = info.protocols.pyasync;
    type_object.tp_as_buffer = info.protocols.buffer;

    let (new, call, mut methods) = py_class_method_defs(info);
    if methods.len() != 0 {
        methods.push(MethodDef::sentinel());
        type_object.tp_methods = Some(methods);
    }

    type_object.tp_new = new;
    type_object.tp_call = call;

    let mut props = py_class_properties(info);
    if info.layout.dict_offset.is_some() {
        props.push(GetSetDef::dict());
    }
    if props.len() != 0 {
        props.push(GetSetDef::init());
        type_object.tp_getset = Some(props);
    }

    py_class_flags(info, type_object);

    Ok(())
}

/// A native type: what can be the payload of an instance. It knows the layout of its
/// instances.
pub trait PyClass: Sized {
    /// The layout of an instance of this type.
    fn layout() -> LayoutDescriptor;
}

/// What an initializer can be made of: a payload, an initializer, or either of them as the
/// result of a computation that may have failed.
pub trait IntoInitializer<T: PyClass>: Sized {
    /// The initializer that this value stands for, or the error that it carries.
    spec fn initializer(self) -> PyResult<PyClassInitializer<T>>;

    /// The initializer that this value stands for, or the error that it carries.
    fn into_initializer(self) -> (init: PyResult<PyClassInitializer<T>>)
        ensures
            init == self.initializer(),
    ;
}

impl<T: PyClass> IntoInitializer<T> for T {
    open spec fn initializer(self) -> PyResult<PyClassInitializer<T>> {
        Ok(PyClassInitializer { init: Some(self), super_init: None })
    }

    fn into_initializer(self) -> (init: PyResult<PyClassInitializer<T>>) {
        Ok(PyClassInitializer::from_value(self))
    }
}

impl<T: PyClass> IntoInitializer<T> for PyResult<T> {
    open spec fn initializer(self) -> PyResult<PyClassInitializer<T>> {
        match self {
            Ok(value) => Ok(PyClassInitializer { init: Some(value), super_init: None }),
            Err(e) => Err(e),
        }
    }

    fn into_initializer(self) -> (init: PyResult<PyClassInitializer<T>>) {
        match self {
            Ok(value) => Ok(PyClassInitializer::from_value(value)),
            Err(e) => Err(e),
        }
    }
}

impl<T: PyClass> IntoInitializer<T> for PyClassInitializer<T> {
    open spec fn initializer(self) -> PyResult<PyClassInitializer<T>> {
        Ok(self)
    }

    fn into_initializer(self) -> (init: PyResult<PyClassInitializer<T>>) {
        Ok(self)
    }
}

impl<T: PyClass> IntoInitializer<T> for PyResult<PyClassInitializer<T>> {
    open spec fn initializer(self) -> PyResult<PyClassInitializer<T>> {
        self
    }

    fn into_initializer(self) -> (init: PyResult<PyClassInitializer<T>>) {
        self
    }
}

impl<T: PyClass> PyClassShell<T> {
    /// Makes an instance of the native type `T` from what `value` stands for: the region of
    /// a fresh instance of the layout that `T` gives, with the initializer applied. Fails
    /// with the error that `value` carries, or for a payload that is required and not
    /// supplied.
    pub fn new_ref<I: IntoInitializer<T>>(py: Python<'_>, value: I) -> (made: PyResult<
        PyClassShell<T>,
    >)
        ensures
            match value.initializer() {
                Ok(init) => exists|layout: LayoutDescriptor| #[trigger] creates(init, layout, made),
                Err(e) => made == Err::<PyClassShell<T>, PyErr>(e),
            },
    {
        let initializer = match value.into_initializer() {
            Ok(initializer) => initializer,
            Err(e) => {
                return Err(e);
            },
        };
        let layout = T::layout();
        let made = initializer.create_shell(py, &layout);
        assert(creates(initializer, layout, made));
        made
    }
}

} // verus!
