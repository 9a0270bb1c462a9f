//! Laws of construction and registration: what holds of every initializer, every region
//! and every sequence of uses of a type.

use vstd::prelude::*;

use crate::err::PyErrView;
use crate::host::getset_init;
use crate::host::Accessor;
use crate::host::GetSetDef;
use crate::methods::PyGetterDef;
use crate::methods::PyMethodDefType;
use crate::methods::PySetterDef;
use crate::pyclass::apply_chain;
use crate::pyclass::first_required;
use crate::pyclass::nul_in_name;
use crate::pyclass::properties;
use crate::pyclass::property_name;
use crate::pyclass::property_names;
use crate::pyclass::qualified_name;
use crate::pyclass::with_getter;
use crate::pyclass::with_setter;
use crate::pyclass::PyBaseObject;
use crate::pyclass::PyClassInitializer;
use crate::pyclass::PyClassShell;
use crate::text::terminated;
use crate::type_object::finalized;
use crate::type_object::init_step;
use crate::type_object::lemma_init_step_frame;
use crate::type_object::lemma_init_step_wf;
use crate::type_object::module_text;
use crate::type_object::record_wf;
use crate::type_object::registry_wf;
use crate::type_object::Step;
use crate::type_object::TypeRecord;

verus! {

/// Every level of a region whose payload is required holds one.
pub open spec fn initialized_throughout<T>(shell: PyClassShell<T>) -> bool
    decreases shell,
{
    &&& shell.need_init ==> shell.pyclass is Some
    &&& match shell.ob_base {
        PyBaseObject::Native(_) => true,
        PyBaseObject::Class(base) => initialized_throughout(*base),
    }
}

/// The level of a region that lies `depth` levels below its top, if the region is that deep.
pub open spec fn level<T>(shell: PyClassShell<T>, depth: nat) -> Option<PyClassShell<T>>
    decreases depth,
{
    if depth == 0 {
        Some(shell)
    } else {
        match shell.ob_base {
            PyBaseObject::Native(_) => None,
            PyBaseObject::Class(base) => level(*base, (depth - 1) as nat),
        }
    }
}

/// The payload that an initializer supplies for the level `depth` levels below the top.
pub open spec fn supplied<T>(init: PyClassInitializer<T>, depth: nat) -> Option<T>
    decreases depth,
{
    if depth == 0 {
        init.init
    } else {
        match init.super_init {
            Some(super_init) => supplied(*super_init, (depth - 1) as nat),
            None => None,
        }
    }
}

/// No level at or below `base` requires a payload that it does not hold, where none
/// requires a payload at all.
proof fn lemma_nothing_required<T>(base: PyBaseObject<T>)
    requires
        first_required(base) is None,
    ensures
        match base {
            PyBaseObject::Native(_) => true,
            PyBaseObject::Class(shell) => initialized_throughout(*shell),
        },
    decreases base,
{
    match base {
        PyBaseObject::Native(_) => {},
        PyBaseObject::Class(shell) => {
            lemma_nothing_required(shell.ob_base);
        },
    }
}

/// An initializer that was applied without failure leaves no level without a payload that
/// it requires.
pub proof fn law_applied_initializes<T>(init: PyClassInitializer<T>, shell: PyClassShell<T>)
    requires
        apply_chain(init, shell).missing is None,
    ensures
        initialized_throughout(apply_chain(init, shell).shell),
    decreases shell,
{
    match init.super_init {
        Some(super_init) => match shell.ob_base {
            PyBaseObject::Class(base) => {
                law_applied_initializes(*super_init, *base);
            },
            PyBaseObject::Native(_) => {},
        },
        None => {
            lemma_nothing_required(shell.ob_base);
        },
    }
}

/// An initializer that fails names a level whose payload is required and which it does not
/// supply; and it fails wherever there is such a level.
pub proof fn law_missing_payload_fails<T>(
    init: PyClassInitializer<T>,
    shell: PyClassShell<T>,
    depth: nat,
)
    requires
        level(shell, depth) matches Some(at) && at.need_init,
        supplied(init, depth) is None,
    ensures
        apply_chain(init, shell).missing is Some,
    decreases depth,
{
    if depth > 0 && !(init.init is None && shell.need_init) {
        match shell.ob_base {
            PyBaseObject::Class(base) => match init.super_init {
                Some(super_init) => {
                    law_missing_payload_fails(*super_init, *base, (depth - 1) as nat);
                },
                None => {
                    lemma_required_below(shell.ob_base, (depth - 1) as nat);
                },
            },
            PyBaseObject::Native(_) => {},
        }
    }
}

/// A base with a level that requires a payload has a nearest such level.
proof fn lemma_required_below<T>(base: PyBaseObject<T>, depth: nat)
    requires
        base matches PyBaseObject::Class(shell) && level(*shell, depth) matches Some(at)
            && at.need_init,
    ensures
        first_required(base) is Some,
    decreases depth,
{
    match base {
        PyBaseObject::Class(shell) => {
            if depth > 0 && !shell.need_init {
                lemma_required_below(shell.ob_base, (depth - 1) as nat);
            }
        },
        PyBaseObject::Native(_) => {},
    }
}

/// An initializer that supplies the payload of the subtype and never touches the base
/// fails for a base that requires a payload, and names the base type.
pub proof fn law_untouched_base_fails<T>(
    value: T,
    shell: PyClassShell<T>,
    base: PyClassShell<T>,
)
    requires
        shell.ob_base == PyBaseObject::Class(Box::new(base)),
        base.need_init,
    ensures
        apply_chain(PyClassInitializer { init: Some(value), super_init: None }, shell).missing
            == Some(base.name),
{
}

/// An initializer that supplies the payload of the subtype and that of its base succeeds
/// on a region of these two levels over a host-native object, and afterwards each level
/// holds its payload and is otherwise as it was.
pub proof fn law_both_levels_initialized<T>(
    value: T,
    base_value: T,
    shell: PyClassShell<T>,
    base: PyClassShell<T>,
)
    requires
        shell.ob_base == PyBaseObject::Class(Box::new(base)),
        base.ob_base is Native,
    ensures
        ({
            let init = PyClassInitializer {
                init: Some(value),
                super_init: Some(
                    Box::new(PyClassInitializer { init: Some(base_value), super_init: None }),
                ),
            };
            &&& apply_chain(init, shell).missing is None
            &&& apply_chain(init, shell).shell == (PyClassShell {
                pyclass: Some(value),
                ob_base: PyBaseObject::Class(
                    Box::new(PyClassShell { pyclass: Some(base_value), ..base }),
                ),
                ..shell
            })
        }),
{
    let super_init = PyClassInitializer { init: Some(base_value), super_init: None };
    assert(apply_chain(super_init, base).shell == (PyClassShell {
        pyclass: Some(base_value),
        ..base
    }));
}

/// Applying an initializer writes each payload that it supplies to its level, once, and
/// nothing else: afterwards each level holds what was supplied for it, or else what it held
/// before, and its name, its slots and whether it requires a payload are as they were.
pub proof fn law_payloads_written<T>(
    init: PyClassInitializer<T>,
    shell: PyClassShell<T>,
    depth: nat,
)
    requires
        apply_chain(init, shell).missing is None,
        level(shell, depth) is Some,
    ensures
        level(apply_chain(init, shell).shell, depth) == Some(
            PyClassShell {
                pyclass: match supplied(init, depth) {
                    Some(value) => Some(value),
                    None => level(shell, depth)->0.pyclass,
                },
                ob_base: level(apply_chain(init, shell).shell, depth)->0.ob_base,
                ..level(shell, depth)->0
            },
        ),
    decreases depth,
{
    if depth > 0 {
        match shell.ob_base {
            PyBaseObject::Class(base) => match init.super_init {
                Some(super_init) => {
                    law_payloads_written(*super_init, *base, (depth - 1) as nat);
                },
                None => {
                    lemma_level_kept(*base, (depth - 1) as nat);
                },
            },
            PyBaseObject::Native(_) => {},
        }
    }
}

/// A level is what it is.
proof fn lemma_level_kept<T>(shell: PyClassShell<T>, depth: nat)
    requires
        level(shell, depth) is Some,
    ensures
        level(shell, depth) == Some(
            PyClassShell { ob_base: level(shell, depth)->0.ob_base, ..level(shell, depth)->0 },
        ),
{
}

/// A type that is ready stays as it is, whatever type is used and whatever the host
/// reports: its record, and with it its type object, does not change any more.
pub proof fn law_ready_is_final(
    types: Seq<TypeRecord>,
    ready: int,
    id: int,
    outcome: Result<(), PyErrView>,
)
    requires
        registry_wf(types),
        0 <= ready < types.len(),
        types[ready].state is Ready,
    ensures
        init_step(types, id).0[ready] == types[ready],
        finalized(types, id, outcome)[ready] == types[ready],
        init_step(types, ready) == (types, Step::Ready),
    decreases id,
{
    if 0 <= id < types.len() && types[id].state is Unregistered {
        lemma_init_step_frame(types, id);
        if let Some(base) = types[id].base {
            if base.0 < id {
                law_ready_is_final(types, ready, base.0 as int, outcome);
                lemma_init_step_frame(types, base.0 as int);
            }
        }
    }
}

/// A type whose registration has failed stays failed, for the same reason, and every use
/// of it says so.
pub proof fn law_failed_is_final(
    types: Seq<TypeRecord>,
    failed: int,
    id: int,
    outcome: Result<(), PyErrView>,
)
    requires
        registry_wf(types),
        0 <= failed < types.len(),
        types[failed].state is Failed,
    ensures
        init_step(types, id).0[failed] == types[failed],
        finalized(types, id, outcome)[failed] == types[failed],
        init_step(types, failed) == (types, Step::Failed(types[failed].failure->0)),
    decreases id,
{
    if 0 <= id < types.len() && types[id].state is Unregistered {
        lemma_init_step_frame(types, id);
        if let Some(base) = types[id].base {
            if base.0 < id {
                law_failed_is_final(types, failed, base.0 as int, outcome);
                lemma_init_step_frame(types, base.0 as int);
            }
        }
    }
}

/// A type is registered once. When the host has finalized the type object that waited for
/// it, the type is ready with that type object; every later use finds it ready and changes
/// nothing; and a second report on it changes nothing.
pub proof fn law_registered_once(
    types: Seq<TypeRecord>,
    id: int,
    again: Result<(), PyErrView>,
)
    requires
        registry_wf(types),
        0 <= id < types.len(),
        types[id].state is Registering,
    ensures
        ({
            let ready = finalized(types, id, Ok(()));
            &&& ready[id].state is Ready
            &&& ready[id].type_object == types[id].type_object
            &&& init_step(ready, id) == (ready, Step::Ready)
            &&& init_step(init_step(ready, id).0, id) == (ready, Step::Ready)
            &&& finalized(ready, id, again) == ready
        }),
{
}

/// The first use of a type, and every use until the host has reported, asks for the same
/// type object to be finalized, and fills it in once: a second use before the report
/// changes nothing.
pub proof fn law_use_is_idempotent(types: Seq<TypeRecord>, id: int)
    requires
        registry_wf(types),
        0 <= id < types.len(),
    ensures
        init_step(init_step(types, id).0, id) == init_step(types, id),
    decreases id,
{
    let (after, step) = init_step(types, id);
    lemma_init_step_frame(types, id);
    lemma_init_step_wf(types, id);
    assert(record_wf(types, id));
    if types[id].state is Unregistered {
        match types[id].base {
            Some(base) => {
                let (before, below) = init_step(types, base.0 as int);
                law_use_is_idempotent(types, base.0 as int);
                lemma_init_step_frame(types, base.0 as int);
                lemma_init_step_wf(types, base.0 as int);
                assert(before[id] == types[id]);
                match below {
                    Step::Ready => {},
                    Step::Finalize(next) => {
                        assert(after == before);
                    },
                    Step::Failed(reason) => {},
                }
            },
            None => {},
        }
    }
}

/// The base comes first: the type object that is to be finalized next belongs to a type
/// that waits for the host, and the base of that type is ready. The type that was used is
/// itself filled in only once its base is ready.
pub proof fn law_base_comes_first(types: Seq<TypeRecord>, id: int)
    requires
        registry_wf(types),
        0 <= id < types.len(),
        init_step(types, id).1 is Finalize,
    ensures
        ({
            let (after, step) = init_step(types, id);
            let next = step->Finalize_0;
            &&& 0 <= next <= id
            &&& after[next].state is Registering
            &&& after[next].base matches Some(base) ==> after[base.0 as int].state is Ready
            &&& next != id ==> after[id] == types[id]
        }),
    decreases id,
{
    let (after, step) = init_step(types, id);
    lemma_init_step_wf(types, id);
    lemma_init_step_frame(types, id);
    let next = step->Finalize_0;
    assert(record_wf(after, next));
    if types[id].state is Unregistered {
        if let Some(base) = types[id].base {
            lemma_init_step_frame(types, base.0 as int);
            lemma_init_step_wf(types, base.0 as int);
            assert(record_wf(types, id));
        }
    }
}

/// A class whose qualified name holds a zero byte fails registration for that reason, at
/// its first use after its base is ready, and however often it is tried.
pub proof fn law_name_with_terminator_fails(types: Seq<TypeRecord>, id: int)
    requires
        registry_wf(types),
        0 <= id < types.len(),
        types[id].state is Unregistered,
        types[id].base matches Some(base) ==> types[base.0 as int].state is Ready,
        terminated(
            qualified_name(
                module_text(types[id].info->0.module),
                types[id].info->0.layout.name@,
            ),
        ) is None,
    ensures
        init_step(types, id).1 == Step::Failed(nul_in_name()),
        init_step(types, id).0[id].state is Failed,
        init_step(init_step(types, id).0, id).1 == Step::Failed(nul_in_name()),
{
    assert(record_wf(types, id));
    if let Some(base) = types[id].base {
        law_ready_is_final(types, base.0 as int, base.0 as int, Ok(()));
    }
}

/// No two entries of a merged property table have the same name, and every entry has one.
pub proof fn law_property_names_unique(methods: Seq<PyMethodDefType>)
    ensures
        forall|i: int, j: int|
            0 <= i < j < properties(methods).len() ==> property_name(
                #[trigger] properties(methods)[i],
            ) != property_name(#[trigger] properties(methods)[j]),
        forall|i: int|
            0 <= i < properties(methods).len() ==> (#[trigger] properties(methods)[i]).name
                is Some,
    decreases methods.len(),
{
    if methods.len() > 0 {
        let rest = properties(methods.drop_last());
        law_property_names_unique(methods.drop_last());
        match methods.last() {
            PyMethodDefType::Getter(getter) => {
                lemma_merge_keeps_names(rest, getter.name, getter.copied_to(getset_init()));
                property_names(rest).index_of_first_ensures(getter.name@);
                let table = with_getter(rest, getter);
                assert forall|i: int, j: int| 0 <= i < j < table.len() implies property_name(
                    #[trigger] table[i],
                ) != property_name(#[trigger] table[j]) by {
                    lemma_merged_name(rest, table, getter.name@, i);
                    lemma_merged_name(rest, table, getter.name@, j);
                }
            },
            PyMethodDefType::Setter(setter) => {
                lemma_merge_keeps_names(rest, setter.name, setter.copied_to(getset_init()));
                property_names(rest).index_of_first_ensures(setter.name@);
                let table = with_setter(rest, setter);
                assert forall|i: int, j: int| 0 <= i < j < table.len() implies property_name(
                    #[trigger] table[i],
                ) != property_name(#[trigger] table[j]) by {
                    lemma_merged_name(rest, table, setter.name@, i);
                    lemma_merged_name(rest, table, setter.name@, j);
                }
            },
            _ => {},
        }
    }
}

/// A new entry that starts from the empty one has the name it was given.
proof fn lemma_merge_keeps_names(table: Seq<GetSetDef>, name: &'static str, fresh: GetSetDef)
    requires
        fresh.name == Some(name),
    ensures
        property_name(fresh) == name@,
{
}

/// After a merge under `name`, an entry has the name it had before, and a new entry has
/// the name `name`, which no entry had before.
proof fn lemma_merged_name(
    rest: Seq<GetSetDef>,
    table: Seq<GetSetDef>,
    name: Seq<char>,
    i: int,
)
    requires
        0 <= i < table.len(),
        forall|k: int| 0 <= k < rest.len() ==> (#[trigger] rest[k]).name is Some,
        match property_names(rest).index_of_first(name) {
            Some(at) => table.len() == rest.len() && (forall|k: int|
                0 <= k < rest.len() ==> (#[trigger] table[k]).name == rest[k].name),
            None => table.len() == rest.len() + 1 && (forall|k: int|
                0 <= k < rest.len() ==> (#[trigger] table[k]).name == rest[k].name)
                && property_name(table[rest.len() as int]) == name,
        },
    ensures
        i < rest.len() ==> property_name(table[i]) == property_name(rest[i]),
        i >= rest.len() ==> property_name(table[i]) == name && forall|k: int|
            0 <= k < rest.len() ==> property_name(#[trigger] rest[k]) != name,
{
    property_names(rest).index_of_first_ensures(name);
    if i >= rest.len() {
        assert forall|k: int| 0 <= k < rest.len() implies property_name(#[trigger] rest[k])
            != name by {
            assert(property_names(rest)[k] == property_name(rest[k]));
        }
    }
}

/// A getter and a setter of one name become one entry, which holds both: after a getter
/// and then a setter of its name are merged into a table, the entry of that name reads
/// through the getter and writes through the setter.
pub proof fn law_getter_and_setter_merge(
    table: Seq<GetSetDef>,
    getter: PyGetterDef,
    setter: PySetterDef,
)
    requires
        getter.name@ == setter.name@,
        forall|k: int| 0 <= k < table.len() ==> (#[trigger] table[k]).name is Some,
    ensures
        ({
            let merged = with_setter(with_getter(table, getter), setter);
            &&& merged.len() == with_getter(table, getter).len()
            &&& property_names(merged).index_of_first(getter.name@) matches Some(at)
            &&& merged[at].get == Some(Accessor::Native(getter.meth))
            &&& merged[at].set == Some(Accessor::Native(setter.meth))
        }),
{
    let name = getter.name@;
    let first = with_getter(table, getter);
    property_names(table).index_of_first_ensures(name);
    let at = match property_names(table).index_of_first(name) {
        Some(at) => at,
        None => table.len() as int,
    };
    assert(property_names(first)[at] == name);
    assert forall|k: int| 0 <= k < at implies property_names(first)[k] != name by {
        assert(property_names(table)[k] == property_name(table[k]));
    }
    property_names(first).index_of_first_ensures(name);
    let merged = with_setter(first, setter);
    assert(property_names(merged)[at] == name);
    assert forall|k: int| 0 <= k < at implies property_names(merged)[k] != name by {
        assert(property_names(first)[k] == property_name(first[k]));
    }
    property_names(merged).index_of_first_ensures(name);
}

} // verus!
