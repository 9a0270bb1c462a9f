//! What a native type declares of itself, and the registration of types with the host
//! runtime.

use vstd::prelude::*;

use crate::err::PyErr;
use crate::err::PyErrView;
use crate::err::PyResult;
use crate::host::Callback;
use crate::host::ProtocolTable;
use crate::host::blank_type_object;
use crate::host::PyTypeObject;
use crate::host::TypeId;
use crate::host::TypeObject;
use crate::layout::LayoutDescriptor;
use crate::methods::PyMethodDef;
use crate::methods::PyMethodDefType;
use crate::pyclass::call_slot_supported;
use crate::pyclass::check_call_slot;
use crate::pyclass::initialize_type;
use crate::pyclass::initialized;
use crate::pyclass::linked;
use crate::pyclass::nul_in_name;
use crate::pyclass::qualified_name;
use crate::python::Python;
use crate::text::terminated;

verus! {

/// The class flag of a type whose instances take part in cyclic garbage collection.
pub const GC: usize = 1;

/// The class flag of a type whose instances can be weakly referenced.
pub const WEAKREF: usize = 2;

/// The class flag of a type that can be subclassed.
pub const BASETYPE: usize = 4;

/// The class flag of a type whose instances have a dictionary.
pub const DICT: usize = 8;

/// The class flag of a type that asks for the placement of its host-native base.
pub const EXTENDED: usize = 16;

/// The capabilities of a native type beyond its own methods: the hooks it has for the
/// garbage collector, the protocol tables it supplies, and the special methods that its
/// protocols require.
#[derive(Debug)]
pub struct PyProtocols {
    pub gc_traverse: Option<Callback>,
    pub gc_clear: Option<Callback>,
    pub number: Option<ProtocolTable>,
    pub mapping: Option<ProtocolTable>,
    pub sequence: Option<ProtocolTable>,
    pub pyasync: Option<ProtocolTable>,
    pub buffer: Option<ProtocolTable>,
    pub object_methods: Vec<PyMethodDef>,
    pub context_methods: Vec<PyMethodDef>,
    pub mapping_methods: Vec<PyMethodDef>,
    pub number_methods: Vec<PyMethodDef>,
    pub descr_methods: Vec<PyMethodDef>,
    pub async_methods: Vec<PyMethodDef>,
}

/// What a native type declares of itself.
#[derive(Debug)]
pub struct PyTypeInfo {
    /// The documentation, ended by a zero character; that character alone where there is
    /// none.
    pub description: &'static str,
    /// The module that the type belongs to.
    pub module: Option<&'static str>,
    /// The class flags: [`GC`], [`WEAKREF`], [`BASETYPE`], [`DICT`], [`EXTENDED`].
    pub flags: usize,
    /// The layout of an instance, which also names the type.
    pub layout: LayoutDescriptor,
    /// The entry point that the host calls to destroy an instance.
    pub dealloc: Callback,
    /// The methods and properties, in declared order.
    pub methods: Vec<PyMethodDefType>,
    pub protocols: PyProtocols,
}

impl PyProtocols {
    /// The capabilities of a type that has none.
    pub fn new() -> (protocols: PyProtocols)
        ensures
            protocols.gc_traverse is None,
            protocols.gc_clear is None,
            protocols.number is None,
            protocols.mapping is None,
            protocols.sequence is None,
            protocols.pyasync is None,
            protocols.buffer is None,
            protocols.object_methods@.len() == 0,
            protocols.context_methods@.len() == 0,
            protocols.mapping_methods@.len() == 0,
            protocols.number_methods@.len() == 0,
            protocols.descr_methods@.len() == 0,
            protocols.async_methods@.len() == 0,
    {
        PyProtocols {
            gc_traverse: None,
            gc_clear: None,
            number: None,
            mapping: None,
            sequence: None,
            pyasync: None,
            buffer: None,
            object_methods: Vec::new(),
            context_methods: Vec::new(),
            mapping_methods: Vec::new(),
            number_methods: Vec::new(),
            descr_methods: Vec::new(),
            async_methods: Vec::new(),
        }
    }
}

/// How far the registration of a type has come.
#[derive(Clone, Copy, Debug, PartialEq, Eq, Structural)]
pub enum TypeState {
    /// Nothing was written to the type object yet.
    Unregistered,
    /// The type object is filled in and waits for the host runtime to finalize it.
    Registering,
    /// The host runtime has finalized the type object. It does not change any more.
    Ready,
    /// Registration failed. The type cannot be used.
    Failed,
}

/// What is known of one type: what it declares, unless the host runtime made it; its base;
/// its type object; and how far its registration has come.
pub struct TypeEntry {
    info: Option<PyTypeInfo>,
    base: Option<TypeId>,
    type_object: PyTypeObject,
    state: TypeState,
    failure: Option<PyErr>,
}

/// One type as mathematics.
pub struct TypeRecord {
    /// What the type declares; nothing for a type of the host runtime's own making.
    pub info: Option<PyTypeInfo>,
    pub base: Option<TypeId>,
    pub type_object: TypeObject,
    pub state: TypeState,
    /// Why registration failed, where it did.
    pub failure: Option<PyErrView>,
}

/// What the embedding program has to do next for a type to become ready.
#[derive(Debug, PartialEq, Eq)]
pub enum InitStep {
    /// Nothing: the type is ready.
    Ready,
    /// Have the host runtime finalize the type object of the given type, and report how
    /// that went.
    Finalize(TypeId),
    /// Nothing can be done: registration has failed.
    Failed(PyErr),
}

/// [`InitStep`] as mathematics.
pub enum Step {
    Ready,
    /// The place of the type whose type object is to be finalized.
    Finalize(int),
    Failed(PyErrView),
}

impl View for InitStep {
    type V = Step;

    open spec fn view(&self) -> Step {
        match self {
            InitStep::Ready => Step::Ready,
            InitStep::Finalize(id) => Step::Finalize(id.0 as int),
            InitStep::Failed(e) => Step::Failed(e@),
        }
    }
}

/// The types that were declared, each known by its place.
pub struct TypeRegistry {
    entries: Vec<TypeEntry>,
}

/// The text of a module name, where there is one.
pub open spec fn module_text(module: Option<&'static str>) -> Option<Seq<char>> {
    match module {
        Some(module) => Some(module@),
        None => None,
    }
}

/// What the host runtime reported, as mathematics.
pub open spec fn report(outcome: PyResult<()>) -> Result<(), PyErrView> {
    match outcome {
        Ok(_) => Ok(()),
        Err(reason) => Err(reason@),
    }
}

/// The record of a type whose registration failed for the given reason.
pub open spec fn failed(record: TypeRecord, reason: PyErrView) -> TypeRecord {
    TypeRecord { state: TypeState::Failed, failure: Some(reason), ..record }
}

/// The record of a class after its type object was filled in: it waits for the host, or
/// it has failed where its name cannot be written.
pub open spec fn filled_in(record: TypeRecord) -> TypeRecord {
    let info = record.info->0;
    match terminated(qualified_name(module_text(info.module), info.layout.name@)) {
        Some(name) => TypeRecord {
            type_object: initialized(record.type_object, info, record.base, name),
            state: TypeState::Registering,
            ..record
        },
        None => failed(
            TypeRecord { type_object: linked(record.type_object, info, record.base), ..record },
            nul_in_name(),
        ),
    }
}

/// What the first use of a filled-in record asks for.
pub open spec fn filled_in_step(record: TypeRecord, id: int) -> Step {
    if filled_in(record).state is Failed {
        Step::Failed(nul_in_name())
    } else {
        Step::Finalize(id)
    }
}

/// Type `i` is in order among `types`: its base was declared before it; it has a ready base
/// where it is filled in or ready itself; it is ready where the host runtime made it; it can
/// be registered where it is a class; and it has its reason where it has failed.
pub open spec fn record_wf(types: Seq<TypeRecord>, i: int) -> bool {
    &&& types[i].base matches Some(base) ==> base.0 < i && (types[i].state is Registering
        || types[i].state is Ready ==> types[base.0 as int].state is Ready)
    &&& types[i].info is None ==> types[i].state is Ready
    &&& types[i].info matches Some(info) ==> call_slot_supported(info.methods@)
    &&& types[i].state is Failed ==> types[i].failure is Some
}

/// Every type is in order, as [`record_wf`] says.
pub open spec fn registry_wf(types: Seq<TypeRecord>) -> bool {
    forall|i: int| 0 <= i < types.len() ==> #[trigger] record_wf(types, i)
}

/// The use of type `id`: the types afterwards, and what the embedding program has to do
/// next.
///
/// A type that is ready, waits for the host or has failed stays as it is. A type that is
/// not registered first has its base used. Only once the base is ready is the type object
/// of the type itself filled in. While an ancestor waits for the host, the type stays
/// unregistered, and the ancestor is what has to be finalized next. Where the base has
/// failed, the type has failed for the same reason.
pub open spec fn init_step(types: Seq<TypeRecord>, id: int) -> (Seq<TypeRecord>, Step)
    decreases id,
{
    if !(0 <= id < types.len()) {
        (types, Step::Ready)
    } else {
        match types[id].state {
            TypeState::Ready => (types, Step::Ready),
            TypeState::Registering => (types, Step::Finalize(id)),
            TypeState::Failed => (types, Step::Failed(types[id].failure->0)),
            TypeState::Unregistered => {
                let (types, below) = match types[id].base {
                    Some(base) => if base.0 < id {
                        init_step(types, base.0 as int)
                    } else {
                        (types, Step::Ready)
                    },
                    None => (types, Step::Ready),
                };
                match below {
                    Step::Ready => (
                        types.update(id, filled_in(types[id])),
                        filled_in_step(types[id], id),
                    ),
                    Step::Finalize(ancestor) => (types, Step::Finalize(ancestor)),
                    Step::Failed(reason) => (
                        types.update(id, failed(types[id], reason)),
                        Step::Failed(reason),
                    ),
                }
            },
        }
    }
}

/// The types after the host runtime reported how finalizing type `id` went. The report
/// counts only for a type that waits for it: that type is then ready, or has failed for
/// the reason that the host gave.
pub open spec fn finalized(types: Seq<TypeRecord>, id: int, outcome: Result<(), PyErrView>) -> Seq<
    TypeRecord,
> {
    if 0 <= id < types.len() && types[id].state is Registering {
        match outcome {
            Ok(_) => types.update(id, TypeRecord { state: TypeState::Ready, ..types[id] }),
            Err(reason) => types.update(id, failed(types[id], reason)),
        }
    } else {
        types
    }
}

impl View for TypeEntry {
    type V = TypeRecord;

    closed spec fn view(&self) -> TypeRecord {
        TypeRecord {
            info: self.info,
            base: self.base,
            type_object: self.type_object@,
            state: self.state,
            failure: match self.failure {
                Some(e) => Some(e@),
                None => None,
            },
        }
    }
}

impl View for TypeRegistry {
    type V = Seq<TypeRecord>;

    closed spec fn view(&self) -> Seq<TypeRecord> {
        Seq::new(self.entries@.len(), |i: int| self.entries@[i]@)
    }
}

/// Using a type keeps the number of types, their bases and what they declare, and changes
/// no type that was declared after it.
pub proof fn lemma_init_step_frame(types: Seq<TypeRecord>, id: int)
    ensures
        init_step(types, id).0.len() == types.len(),
        forall|j: int|
            0 <= j < types.len() ==> (#[trigger] init_step(types, id).0[j]).base == types[j].base
                && init_step(types, id).0[j].info == types[j].info,
        forall|j: int| id < j < types.len() ==> #[trigger] init_step(types, id).0[j] == types[j],
    decreases id,
{
    if 0 <= id < types.len() && types[id].state is Unregistered {
        if let Some(base) = types[id].base {
            if base.0 < id {
                lemma_init_step_frame(types, base.0 as int);
            }
        }
    }
}

/// Using a type keeps the types in order. The type is ready where nothing is left to do.
/// What is to be finalized next waits for the host, and its base is ready.
pub proof fn lemma_init_step_wf(types: Seq<TypeRecord>, id: int)
    requires
        registry_wf(types),
        0 <= id < types.len(),
    ensures
        registry_wf(init_step(types, id).0),
        init_step(types, id).1 is Ready ==> init_step(types, id).0[id].state is Ready,
        init_step(types, id).1 matches Step::Finalize(next) ==> 0 <= next <= id && init_step(
            types,
            id,
        ).0[next].state is Registering,
        init_step(types, id).1 is Failed ==> init_step(types, id).0[id].state is Failed,
    decreases id,
{
    let after = init_step(types, id).0;
    lemma_init_step_frame(types, id);
    assert(record_wf(types, id));
    if types[id].state is Unregistered {
        let before = match types[id].base {
            Some(base) => init_step(types, base.0 as int).0,
            None => types,
        };
        if let Some(base) = types[id].base {
            lemma_init_step_wf(types, base.0 as int);
            lemma_init_step_frame(types, base.0 as int);
        }
        assert(before[id] == types[id]);
        assert forall|j: int| 0 <= j < after.len() implies #[trigger] record_wf(after, j) by {
            assert(record_wf(before, j));
        }
    }
}

/// A report of the host keeps the types in order.
pub proof fn lemma_finalized_wf(types: Seq<TypeRecord>, id: int, outcome: Result<(), PyErrView>)
    requires
        registry_wf(types),
    ensures
        registry_wf(finalized(types, id, outcome)),
        finalized(types, id, outcome).len() == types.len(),
{
    let after = finalized(types, id, outcome);
    assert forall|j: int| 0 <= j < after.len() implies #[trigger] record_wf(after, j) by {
        assert(record_wf(types, j));
        if 0 <= id < types.len() {
            assert(record_wf(types, id));
        }
    }
}

/// One more type keeps the types in order, where it is in order itself: a type of the host
/// runtime's own making that is ready, or a class that is not yet registered, can be
/// registered, and extends a type that was declared.
pub proof fn lemma_push_wf(types: Seq<TypeRecord>, record: TypeRecord)
    requires
        registry_wf(types),
        record.failure is None,
        record.info is None ==> record.state is Ready && record.base is None,
        record.info matches Some(info) ==> call_slot_supported(info.methods@),
        record.info is Some ==> record.state is Unregistered && record.base is Some
            && (record.base matches Some(base) ==> base.0 < types.len()),
    ensures
        registry_wf(types.push(record)),
{
    let pushed = types.push(record);
    assert forall|i: int| 0 <= i < pushed.len() implies #[trigger] record_wf(pushed, i) by {
        if i < types.len() {
            assert(record_wf(types, i));
        }
    }
}

impl TypeRegistry {
    /// The types are in order, as [`registry_wf`] says. Every registry is: it starts out
    /// empty, and each operation keeps it so.
    pub open spec fn wf(&self) -> bool {
        registry_wf(self@)
    }

    /// No types.
    pub fn new() -> (registry: TypeRegistry)
        ensures
            registry.wf(),
            registry@ == Seq::<TypeRecord>::empty(),
    {
        let registry = TypeRegistry { entries: Vec::new() };
        assert(registry@ =~= Seq::<TypeRecord>::empty());
        registry
    }

    /// The number of types.
    pub fn len(&self) -> (len: usize)
        ensures
            len == self@.len(),
    {
        self.entries.len()
    }

    /// Declares a type of the host runtime's own making, with the type object that the host
    /// has for it. Such a type is ready.
    pub fn add_native(&mut self, type_object: PyTypeObject) -> (id: TypeId)
        requires
            old(self).wf(),
        ensures
            final(self).wf(),
            id.0 == old(self)@.len(),
            final(self)@ == old(self)@.push(
                TypeRecord {
                    info: None,
                    base: None,
                    type_object: type_object@,
                    state: TypeState::Ready,
                    failure: None,
                },
            ),
    {
        let id = TypeId(self.entries.len());
        self.entries.push(
            TypeEntry {
                info: None,
                base: None,
                type_object,
                state: TypeState::Ready,
                failure: None,
            },
        );
        assert(self@ =~= old(self)@.push(
            TypeRecord {
                info: None,
                base: None,
                type_object: type_object@,
                state: TypeState::Ready,
                failure: None,
            },
        ));
        proof {
            lemma_push_wf(old(self)@, self@[id.0 as int]);
        }
        id
    }

    /// Declares a class that extends the type `base`. The class is not registered until it
    /// is first used. The declaration is refused where `base` is no declared type, and where
    /// the class makes its instances callable through an entry point that takes no keywords.
    pub fn declare(&mut self, info: PyTypeInfo, base: TypeId) -> (id: Option<TypeId>)
        requires
            old(self).wf(),
        ensures
            final(self).wf(),
            id is Some <==> base.0 < old(self)@.len() && call_slot_supported(info.methods@),
            match id {
                Some(id) => id.0 == old(self)@.len() && final(self)@ == old(self)@.push(
                    TypeRecord {
                        info: Some(info),
                        base: Some(base),
                        type_object: blank_type_object(),
                        state: TypeState::Unregistered,
                        failure: None,
                    },
                ),
                None => final(self)@ == old(self)@,
            },
    {
        if base.0 >= self.entries.len() || !check_call_slot(info.methods.as_slice()) {
            return None;
        }
        let id = TypeId(self.entries.len());
        self.entries.push(
            TypeEntry {
                info: Some(info),
                base: Some(base),
                type_object: PyTypeObject::new(),
                state: TypeState::Unregistered,
                failure: None,
            },
        );
        assert(self@ =~= old(self)@.push(
            TypeRecord {
                info: Some(info),
                base: Some(base),
                type_object: blank_type_object(),
                state: TypeState::Unregistered,
                failure: None,
            },
        ));
        proof {
            lemma_push_wf(old(self)@, self@[id.0 as int]);
        }
        Some(id)
    }

    /// Uses a type, which registers it on first use: says what the embedding program has to
    /// do next for the type to become ready, after filling in the type object that is to be
    /// finalized next. That is the type object of the type itself once its base is ready,
    /// and before that the type object of the nearest ancestor that is not.
    pub fn init_type(&mut self, py: Python<'_>, id: TypeId) -> (step: InitStep)
        requires
            old(self).wf(),
            id.0 < old(self)@.len(),
        ensures
            final(self).wf(),
            final(self)@ == init_step(old(self)@, id.0 as int).0,
            step@ == init_step(old(self)@, id.0 as int).1,
        decreases id.0,
    {
        let i = id.0;
        proof {
            lemma_init_step_wf(self@, i as int);
            assert(record_wf(self@, i as int));
        }
        match self.entries[i].state {
            TypeState::Ready => InitStep::Ready,
            TypeState::Registering => InitStep::Finalize(id),
            TypeState::Failed => match &self.entries[i].failure {
                Some(reason) => InitStep::Failed(reason.duplicate()),
                None => vstd::pervasive::unreached(),
            },
            TypeState::Unregistered => {
                let below = match self.entries[i].base {
                    Some(base) => self.init_type(py, base),
                    None => InitStep::Ready,
                };
                let ghost before = self@;
                proof {
                    lemma_init_step_frame(old(self)@, i as int);
                    if let Some(base) = old(self)@[i as int].base {
                        lemma_init_step_frame(old(self)@, base.0 as int);
                    }
                    assert(before[i as int] == old(self)@[i as int]);
                }
                match below {
                    InitStep::Ready => {
                        let entry = &mut self.entries[i];
                        let step = match &entry.info {
                            Some(info) => match initialize_type(
                                py,
                                info,
                                &mut entry.type_object,
                                entry.base,
                                info.module,
                            ) {
                                Ok(_) => {
                                    entry.state = TypeState::Registering;
                                    InitStep::Finalize(id)
                                },
                                Err(reason) => {
                                    entry.failure = Some(reason.duplicate());
                                    entry.state = TypeState::Failed;
                                    InitStep::Failed(reason)
                                },
                            },
                            None => vstd::pervasive::unreached(),
                        };
                        assert(self@ =~= before.update(i as int, filled_in(before[i as int])));
                        step
                    },
                    InitStep::Finalize(ancestor) => InitStep::Finalize(ancestor),
                    InitStep::Failed(reason) => {
                        let entry = &mut self.entries[i];
                        entry.failure = Some(reason.duplicate());
                        entry.state = TypeState::Failed;
                        assert(self@ =~= before.update(
                            i as int,
                            failed(before[i as int], reason@),
                        ));
                        InitStep::Failed(reason)
                    },
                }
            },
        }
    }

    /// Takes the report of the host runtime on finalizing the type object of a type. The
    /// report counts only for a type that waits for it: that type is then ready, or has
    /// failed for the reason that the host gave. Says whether the report counted.
    pub fn type_ready(&mut self, id: TypeId, outcome: PyResult<()>) -> (counted: bool)
        requires
            old(self).wf(),
        ensures
            final(self).wf(),
            counted == (id.0 < old(self)@.len() && old(self)@[id.0 as int].state is Registering),
            final(self)@ == finalized(old(self)@, id.0 as int, report(outcome)),
    {
        proof {
            lemma_finalized_wf(self@, id.0 as int, report(outcome));
        }
        if id.0 >= self.entries.len() {
            return false;
        }
        match self.entries[id.0].state {
            TypeState::Registering => {},
            _ => {
                return false;
            },
        }
        let entry = &mut self.entries[id.0];
        match outcome {
            Ok(_) => {
                entry.state = TypeState::Ready;
            },
            Err(reason) => {
                entry.failure = Some(reason);
                entry.state = TypeState::Failed;
            },
        }
        assert(self@ =~= finalized(old(self)@, id.0 as int, report(outcome)));
        true
    }

    /// How far the registration of a type has come.
    pub fn state(&self, id: TypeId) -> (state: Option<TypeState>)
        ensures
            match state {
                Some(state) => id.0 < self@.len() && state == self@[id.0 as int].state,
                None => id.0 >= self@.len(),
            },
    {
        if id.0 < self.entries.len() {
            Some(self.entries[id.0].state)
        } else {
            None
        }
    }

    /// The type object of a type.
    pub fn type_object(&self, id: TypeId) -> (type_object: Option<&PyTypeObject>)
        ensures
            match type_object {
                Some(type_object) => id.0 < self@.len() && type_object@
                    == self@[id.0 as int].type_object,
                None => id.0 >= self@.len(),
            },
    {
        if id.0 < self.entries.len() {
            Some(&self.entries[id.0].type_object)
        } else {
            None
        }
    }

    /// What a type declares of itself; nothing for a type of the host runtime's own making.
    pub fn info(&self, id: TypeId) -> (info: Option<&PyTypeInfo>)
        ensures
            match info {
                Some(info) => id.0 < self@.len() && self@[id.0 as int].info == Some(*info),
                None => id.0 >= self@.len() || self@[id.0 as int].info is None,
            },
    {
        if id.0 < self.entries.len() {
            self.entries[id.0].info.as_ref()
        } else {
            None
        }
    }

    /// The base of a type.
    pub fn base(&self, id: TypeId) -> (base: Option<TypeId>)
        ensures
            base == if id.0 < self@.len() {
                self@[id.0 as int].base
            } else {
                None
            },
    {
        if id.0 < self.entries.len() {
            self.entries[id.0].base
        } else {
            None
        }
    }
}

} // verus!
