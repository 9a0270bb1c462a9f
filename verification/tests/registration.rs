use pyglue::err::ExceptionKind;
use pyglue::err::PyErr;
use pyglue::host::Accessor;
use pyglue::host::Callback;
use pyglue::host::GetSetDef;
use pyglue::host::MethodDef;
use pyglue::host::ProtocolTable;
use pyglue::host::PyTypeObject;
use pyglue::host::TypeId;
use pyglue::host::TPFLAGS_BASETYPE;
use pyglue::host::TPFLAGS_DEFAULT;
use pyglue::host::TPFLAGS_HAVE_GC;
use pyglue::layout::BaseLayout;
use pyglue::layout::LayoutDescriptor;
use pyglue::methods::PyGetterDef;
use pyglue::methods::PyMethodDef;
use pyglue::methods::PyMethodDefType;
use pyglue::methods::PyMethodType;
use pyglue::methods::PySetterDef;
use pyglue::pyclass::check_call_slot;
use pyglue::pyclass::initialize_type;
use pyglue::pyclass::py_class_async_methods;
use pyglue::pyclass::py_class_flags;
use pyglue::pyclass::py_class_method_defs;
use pyglue::pyclass::py_class_properties;
use pyglue::python::GILGuard;
use pyglue::text::c_string;
use pyglue::text::push_decimal;
use pyglue::text::str_eq;
use pyglue::type_object::InitStep;
use pyglue::type_object::PyProtocols;
use pyglue::type_object::PyTypeInfo;
use pyglue::type_object::TypeRegistry;
use pyglue::type_object::TypeState;
use pyglue::type_object::BASETYPE;
use pyglue::type_object::GC;

const SLOT: usize = std::mem::size_of::<usize>();

fn method(name: &'static str, meth: PyMethodType) -> PyMethodDef {
    PyMethodDef { ml_name: name, ml_meth: meth, ml_flags: 3, ml_doc: "doc\0" }
}

fn entry(name: &'static str, meth: usize) -> MethodDef {
    MethodDef {
        ml_name: Some(name),
        ml_meth: Some(Callback(meth)),
        ml_flags: 3,
        ml_doc: Some("doc\0"),
    }
}

fn info(name: &'static str, methods: Vec<PyMethodDefType>) -> PyTypeInfo {
    PyTypeInfo {
        description: "\0",
        module: None,
        flags: 0,
        layout: LayoutDescriptor::new(
            name,
            BaseLayout::Native { name: "object", size: 16 },
            8,
            false,
            false,
        )
        .unwrap(),
        dealloc: Callback(100),
        methods,
        protocols: PyProtocols::new(),
    }
}

fn sample_methods() -> Vec<PyMethodDefType> {
    vec![
        PyMethodDefType::Getter(PyGetterDef { name: "x", meth: Callback(1), doc: "get x\0" }),
        PyMethodDefType::Method(method("area", PyMethodType::PyCFunction(Callback(2)))),
        PyMethodDefType::New(method("__new__", PyMethodType::PyNewFunc(Callback(3)))),
        PyMethodDefType::Setter(PySetterDef { name: "y", meth: Callback(4), doc: "set y\0" }),
        PyMethodDefType::Call(method(
            "__call__",
            PyMethodType::PyCFunctionWithKeywords(Callback(5)),
        )),
        PyMethodDefType::Static(method("make", PyMethodType::PyNoArgsFunction(Callback(6)))),
        PyMethodDefType::Setter(PySetterDef { name: "x", meth: Callback(7), doc: "set x\0" }),
        PyMethodDefType::Class(method("named", PyMethodType::PyCFunctionWithKeywords(Callback(8)))),
        PyMethodDefType::Getter(PyGetterDef { name: "y", meth: Callback(9), doc: "get y\0" }),
    ]
}

#[test]
fn flags_of_a_plain_class() {
    let mut ty = PyTypeObject::new();
    py_class_flags(&info("A", vec![]), &mut ty);
    assert_eq!(ty.tp_flags, TPFLAGS_DEFAULT);
    assert_eq!(ty.tp_flags, 0x40000);
}

#[test]
fn flags_with_collection_and_subclassing() {
    let mut class = info("A", vec![]);
    class.flags = GC;
    let mut ty = PyTypeObject::new();
    py_class_flags(&class, &mut ty);
    assert_eq!(ty.tp_flags, 0x44000);

    class.flags = BASETYPE;
    py_class_flags(&class, &mut ty);
    assert_eq!(ty.tp_flags, 0x40400);

    class.flags = GC | BASETYPE;
    py_class_flags(&class, &mut ty);
    assert_eq!(ty.tp_flags, TPFLAGS_DEFAULT | TPFLAGS_HAVE_GC | TPFLAGS_BASETYPE);
}

#[test]
fn flags_follow_the_collector_hooks() {
    let class = info("A", vec![]);
    let mut ty = PyTypeObject::new();
    ty.tp_traverse = Some(Callback(1));
    py_class_flags(&class, &mut ty);
    assert_eq!(ty.tp_flags, TPFLAGS_DEFAULT | TPFLAGS_HAVE_GC);

    let mut ty = PyTypeObject::new();
    ty.tp_clear = Some(Callback(1));
    ty.tp_flags = 0xffff;
    py_class_flags(&class, &mut ty);
    assert_eq!(ty.tp_flags, TPFLAGS_DEFAULT | TPFLAGS_HAVE_GC);
    assert_eq!(ty.tp_clear, Some(Callback(1)));
}

#[test]
fn method_table_keeps_declared_order() {
    let mut class = info("A", sample_methods());
    class.protocols.object_methods = vec![method("__format__", PyMethodType::PyCFunction(Callback(20)))];
    class.protocols.context_methods = vec![method("__enter__", PyMethodType::PyCFunction(Callback(21)))];
    class.protocols.mapping_methods = vec![method("__reversed__", PyMethodType::PyCFunction(Callback(22)))];
    class.protocols.number_methods = vec![method("__round__", PyMethodType::PyCFunction(Callback(23)))];
    class.protocols.descr_methods = vec![method("__set_name__", PyMethodType::PyCFunction(Callback(24)))];
    class.protocols.async_methods = vec![method("__aenter__", PyMethodType::PyCFunction(Callback(25)))];
    let (new, call, defs) = py_class_method_defs(&class);
    assert_eq!(new, Some(Callback(3)));
    assert_eq!(call, Some(Callback(5)));
    assert_eq!(
        defs,
        vec![
            entry("area", 2),
            entry("make", 6),
            entry("named", 8),
            entry("__format__", 20),
            entry("__enter__", 21),
            entry("__reversed__", 22),
            entry("__round__", 23),
            entry("__set_name__", 24),
            entry("__aenter__", 25),
        ]
    );
}

#[test]
fn constructor_needs_a_constructor_entry_point() {
    let class = info(
        "A",
        vec![
            PyMethodDefType::New(method("__new__", PyMethodType::PyNewFunc(Callback(1)))),
            PyMethodDefType::New(method("__new__", PyMethodType::PyCFunction(Callback(2)))),
        ],
    );
    let (new, call, defs) = py_class_method_defs(&class);
    assert_eq!(new, Some(Callback(1)));
    assert_eq!(call, None);
    assert_eq!(defs, vec![]);
}

#[test]
fn last_designated_entry_points_win() {
    let class = info(
        "A",
        vec![
            PyMethodDefType::New(method("__new__", PyMethodType::PyNewFunc(Callback(1)))),
            PyMethodDefType::Call(method("__call__", PyMethodType::PyCFunctionWithKeywords(Callback(2)))),
            PyMethodDefType::New(method("__new__", PyMethodType::PyNewFunc(Callback(3)))),
            PyMethodDefType::Call(method("__call__", PyMethodType::PyCFunctionWithKeywords(Callback(4)))),
        ],
    );
    let (new, call, _) = py_class_method_defs(&class);
    assert_eq!(new, Some(Callback(3)));
    assert_eq!(call, Some(Callback(4)));
}

#[test]
fn async_methods_are_appended() {
    let mut class = info("A", vec![]);
    class.protocols.async_methods = vec![
        method("__aenter__", PyMethodType::PyCFunction(Callback(1))),
        method("__aexit__", PyMethodType::PyCFunction(Callback(2))),
    ];
    let mut defs = vec![entry("first", 0)];
    py_class_async_methods(&class, &mut defs);
    assert_eq!(defs, vec![entry("first", 0), entry("__aenter__", 1), entry("__aexit__", 2)]);
}

#[test]
fn call_slot_takes_keywords_only() {
    assert!(check_call_slot(&sample_methods()));
    assert!(check_call_slot(&[]));
    assert!(!check_call_slot(&[
        PyMethodDefType::Method(method("m", PyMethodType::PyCFunction(Callback(1)))),
        PyMethodDefType::Call(method("__call__", PyMethodType::PyCFunction(Callback(2)))),
    ]));
}

#[test]
fn getter_and_setter_of_one_name_are_one_entry() {
    let props = py_class_properties(&info("A", sample_methods()));
    assert_eq!(
        props,
        vec![
            GetSetDef {
                name: Some("x"),
                get: Some(Accessor::Native(Callback(1))),
                set: Some(Accessor::Native(Callback(7))),
                doc: Some("get x\0"),
            },
            GetSetDef {
                name: Some("y"),
                get: Some(Accessor::Native(Callback(9))),
                set: Some(Accessor::Native(Callback(4))),
                doc: Some("set y\0"),
            },
        ]
    );
}

#[test]
fn later_accessor_of_one_kind_replaces_the_earlier() {
    let props = py_class_properties(&info(
        "A",
        vec![
            PyMethodDefType::Getter(PyGetterDef { name: "x", meth: Callback(1), doc: "one\0" }),
            PyMethodDefType::Getter(PyGetterDef { name: "x", meth: Callback(2), doc: "two\0" }),
        ],
    ));
    assert_eq!(
        props,
        vec![GetSetDef {
            name: Some("x"),
            get: Some(Accessor::Native(Callback(2))),
            set: None,
            doc: Some("one\0"),
        }]
    );
}

#[test]
fn texts_are_compared_by_content() {
    let built = String::from("ab") + "c";
    assert!(str_eq(&built, "abc"));
    assert!(str_eq("", ""));
    assert!(!str_eq("abc", "abd"));
    assert!(!str_eq("abc", "ab"));
    assert!(!str_eq("é", "e"));
}

#[test]
fn decimal_rendering() {
    let mut s = String::from("n=");
    push_decimal(&mut s, 0);
    s.push(' ');
    push_decimal(&mut s, 7);
    s.push(' ');
    push_decimal(&mut s, 10);
    s.push(' ');
    push_decimal(&mut s, 1234567890);
    assert_eq!(s, "n=0 7 10 1234567890");
}

#[test]
fn name_buffer_ends_in_a_terminator() {
    assert_eq!(c_string("ab"), Some(vec![b'a', b'b', 0]));
    assert_eq!(c_string(""), Some(vec![0]));
    assert_eq!(c_string("a\0b"), None);
    assert_eq!(c_string("\0"), None);
    assert_eq!(c_string("é"), Some(vec![0xc3, 0xa9, 0]));
}

#[test]
fn initialize_type_fills_every_field() {
    let gil = GILGuard::assume_acquired();
    let mut class = info("Shape", sample_methods());
    class.description = "A shape.\0";
    class.flags = BASETYPE;
    class.layout = LayoutDescriptor::new(
        "Shape",
        BaseLayout::Native { name: "object", size: 16 },
        8,
        true,
        true,
    )
    .unwrap();
    class.protocols.gc_traverse = Some(Callback(30));
    class.protocols.number = Some(ProtocolTable(1));
    class.protocols.sequence = Some(ProtocolTable(2));
    class.protocols.async_methods = vec![method("__aenter__", PyMethodType::PyCFunction(Callback(25)))];

    let mut ty = PyTypeObject::new();
    ty.tp_alloc = Some(Callback(50));
    ty.tp_as_mapping = Some(ProtocolTable(9));
    initialize_type(gil.python(), &class, &mut ty, Some(TypeId(0)), Some("geometry")).unwrap();

    let expected = PyTypeObject {
        tp_name: Some(b"geometry.Shape\0".to_vec()),
        tp_doc: Some("A shape.\0"),
        tp_base: Some(TypeId(0)),
        tp_dealloc: Some(Callback(100)),
        tp_basicsize: 24 + 2 * SLOT,
        tp_dictoffset: 24,
        tp_weaklistoffset: 24 + SLOT,
        tp_traverse: Some(Callback(30)),
        tp_clear: None,
        tp_as_number: Some(ProtocolTable(1)),
        tp_as_mapping: None,
        tp_as_sequence: Some(ProtocolTable(2)),
        tp_as_async: None,
        tp_as_buffer: None,
        tp_methods: Some(vec![
            entry("area", 2),
            entry("make", 6),
            entry("named", 8),
            entry("__aenter__", 25),
            MethodDef { ml_name: None, ml_meth: None, ml_flags: 0, ml_doc: None },
        ]),
        tp_new: Some(Callback(3)),
        tp_call: Some(Callback(5)),
        tp_getset: Some(vec![
            GetSetDef {
                name: Some("x"),
                get: Some(Accessor::Native(Callback(1))),
                set: Some(Accessor::Native(Callback(7))),
                doc: Some("get x\0"),
            },
            GetSetDef {
                name: Some("y"),
                get: Some(Accessor::Native(Callback(9))),
                set: Some(Accessor::Native(Callback(4))),
                doc: Some("set y\0"),
            },
            GetSetDef {
                name: Some("__dict__"),
                get: Some(Accessor::GenericDict),
                set: Some(Accessor::GenericDict),
                doc: None,
            },
            GetSetDef { name: None, get: None, set: None, doc: None },
        ]),
        tp_flags: TPFLAGS_DEFAULT | TPFLAGS_HAVE_GC | TPFLAGS_BASETYPE,
        tp_alloc: Some(Callback(50)),
        tp_free: None,
    };
    assert_eq!(ty, expected);
}

#[test]
fn initialize_type_of_a_bare_class() {
    let gil = GILGuard::assume_acquired();
    let class = info("Bare", vec![]);
    let mut ty = PyTypeObject::new();
    initialize_type(gil.python(), &class, &mut ty, None, None).unwrap();
    assert_eq!(ty.tp_name, Some(b"Bare\0".to_vec()));
    assert_eq!(ty.tp_doc, None);
    assert_eq!(ty.tp_base, None);
    assert_eq!(ty.tp_basicsize, 24);
    assert_eq!(ty.tp_dictoffset, 0);
    assert_eq!(ty.tp_weaklistoffset, 0);
    assert_eq!(ty.tp_methods, None);
    assert_eq!(ty.tp_getset, None);
    assert_eq!(ty.tp_new, None);
    assert_eq!(ty.tp_call, None);
    assert_eq!(ty.tp_flags, TPFLAGS_DEFAULT);
}

#[test]
fn dictionary_alone_makes_a_property_table() {
    let gil = GILGuard::assume_acquired();
    let mut class = info("D", vec![]);
    class.layout =
        LayoutDescriptor::new("D", BaseLayout::Native { name: "object", size: 16 }, 8, true, false)
            .unwrap();
    let mut ty = PyTypeObject::new();
    initialize_type(gil.python(), &class, &mut ty, None, None).unwrap();
    assert_eq!(ty.tp_getset, Some(vec![GetSetDef::dict(), GetSetDef::init()]));
    assert_eq!(ty.tp_dictoffset, 24);
    assert_eq!(ty.tp_weaklistoffset, 0);
}

#[test]
fn name_with_terminator_fails_registration() {
    let gil = GILGuard::assume_acquired();
    let mut class = info("Bad\0Name", vec![]);
    class.description = "doc\0";
    for _ in 0..2 {
        let mut ty = PyTypeObject::new();
        let e = initialize_type(gil.python(), &class, &mut ty, Some(TypeId(4)), Some("m"))
            .unwrap_err();
        assert_eq!(e.kind, ExceptionKind::ValueError);
        assert_eq!(e.message, "Module name/type name must not contain NUL byte");
        let mut linked = PyTypeObject::new();
        linked.tp_doc = Some("doc\0");
        linked.tp_base = Some(TypeId(4));
        assert_eq!(ty, linked);
    }
    let class = info("Good", vec![]);
    let mut ty = PyTypeObject::new();
    assert!(initialize_type(gil.python(), &class, &mut ty, None, Some("m\0")).is_err());
}

fn registry_with_object() -> (TypeRegistry, TypeId) {
    let mut registry = TypeRegistry::new();
    let mut object = PyTypeObject::new();
    object.tp_name = Some(b"object\0".to_vec());
    object.tp_basicsize = 16;
    let id = registry.add_native(object);
    (registry, id)
}

#[test]
fn native_types_are_ready() {
    let gil = GILGuard::assume_acquired();
    let (mut registry, object) = registry_with_object();
    assert_eq!(object, TypeId(0));
    assert_eq!(registry.len(), 1);
    assert_eq!(registry.state(object), Some(TypeState::Ready));
    assert_eq!(registry.base(object), None);
    assert_eq!(registry.init_type(gil.python(), object), InitStep::Ready);
    assert_eq!(registry.state(TypeId(1)), None);
    assert!(registry.type_object(TypeId(1)).is_none());
}

#[test]
fn a_type_is_registered_once() {
    let gil = GILGuard::assume_acquired();
    let (mut registry, object) = registry_with_object();
    let shape = registry.declare(info("Shape", sample_methods()), object).unwrap();
    assert_eq!(registry.state(shape), Some(TypeState::Unregistered));
    assert_eq!(registry.type_object(shape), Some(&PyTypeObject::new()));

    assert_eq!(registry.init_type(gil.python(), shape), InitStep::Finalize(shape));
    assert_eq!(registry.state(shape), Some(TypeState::Registering));
    let filled = registry.type_object(shape).unwrap().tp_name.clone();
    assert_eq!(filled, Some(b"Shape\0".to_vec()));
    assert_eq!(registry.type_object(shape).unwrap().tp_base, Some(object));

    assert_eq!(registry.init_type(gil.python(), shape), InitStep::Finalize(shape));
    assert!(registry.type_ready(shape, Ok(())));
    assert_eq!(registry.state(shape), Some(TypeState::Ready));

    let mut expected = PyTypeObject::new();
    initialize_type(gil.python(), &info("Shape", sample_methods()), &mut expected, Some(object), None)
        .unwrap();
    for _ in 0..3 {
        assert_eq!(registry.init_type(gil.python(), shape), InitStep::Ready);
        assert_eq!(registry.state(shape), Some(TypeState::Ready));
        assert_eq!(registry.type_object(shape), Some(&expected));
    }
    assert!(!registry.type_ready(shape, Err(PyErr::runtime_error(String::from("late")))));
    assert_eq!(registry.state(shape), Some(TypeState::Ready));
    assert_eq!(registry.type_object(shape), Some(&expected));
}

#[test]
fn the_base_is_registered_first() {
    let gil = GILGuard::assume_acquired();
    let (mut registry, object) = registry_with_object();
    let base = registry.declare(info("Base", vec![]), object).unwrap();
    let middle = registry.declare(info("Middle", vec![]), base).unwrap();
    let top = registry.declare(info("Top", vec![]), middle).unwrap();

    assert_eq!(registry.init_type(gil.python(), top), InitStep::Finalize(base));
    assert_eq!(registry.state(base), Some(TypeState::Registering));
    assert_eq!(registry.state(middle), Some(TypeState::Unregistered));
    assert_eq!(registry.state(top), Some(TypeState::Unregistered));
    assert_eq!(registry.type_object(top), Some(&PyTypeObject::new()));

    assert!(!registry.type_ready(top, Ok(())));
    assert!(registry.type_ready(base, Ok(())));
    assert_eq!(registry.init_type(gil.python(), top), InitStep::Finalize(middle));
    assert_eq!(registry.state(top), Some(TypeState::Unregistered));
    assert!(registry.type_ready(middle, Ok(())));
    assert_eq!(registry.init_type(gil.python(), top), InitStep::Finalize(top));
    assert_eq!(registry.type_object(top).unwrap().tp_base, Some(middle));
    assert!(registry.type_ready(top, Ok(())));
    assert_eq!(registry.init_type(gil.python(), top), InitStep::Ready);
    assert_eq!(registry.state(base), Some(TypeState::Ready));
    assert_eq!(registry.base(top), Some(middle));
}

#[test]
fn failed_finalization_is_permanent() {
    let gil = GILGuard::assume_acquired();
    let (mut registry, object) = registry_with_object();
    let base = registry.declare(info("Base", vec![]), object).unwrap();
    let sub = registry.declare(info("Sub", vec![]), base).unwrap();
    assert_eq!(registry.init_type(gil.python(), sub), InitStep::Finalize(base));
    let reason = PyErr::new(ExceptionKind::SystemError, String::from("host refused"));
    assert!(registry.type_ready(base, Err(reason.duplicate())));
    assert_eq!(registry.state(base), Some(TypeState::Failed));
    for _ in 0..2 {
        assert_eq!(
            registry.init_type(gil.python(), base),
            InitStep::Failed(reason.duplicate())
        );
        assert_eq!(
            registry.init_type(gil.python(), sub),
            InitStep::Failed(reason.duplicate())
        );
        assert_eq!(registry.state(sub), Some(TypeState::Failed));
    }
    assert!(!registry.type_ready(base, Ok(())));
    assert_eq!(registry.state(base), Some(TypeState::Failed));
}

#[test]
fn name_with_terminator_fails_at_first_use() {
    let gil = GILGuard::assume_acquired();
    let (mut registry, object) = registry_with_object();
    let mut class = info("Na\0me", vec![]);
    class.module = Some("m");
    let bad = registry.declare(class, object).unwrap();
    assert_eq!(registry.state(bad), Some(TypeState::Unregistered));
    for _ in 0..2 {
        match registry.init_type(gil.python(), bad) {
            InitStep::Failed(e) => {
                assert_eq!(e.kind, ExceptionKind::ValueError);
                assert_eq!(e.message, "Module name/type name must not contain NUL byte");
            }
            other => panic!("expected a failure, got {:?}", other),
        }
        assert_eq!(registry.state(bad), Some(TypeState::Failed));
    }
}

#[test]
fn declarations_are_checked() {
    let (mut registry, object) = registry_with_object();
    assert_eq!(registry.declare(info("A", vec![]), TypeId(5)), None);
    let uncallable = vec![PyMethodDefType::Call(method(
        "__call__",
        PyMethodType::PyCFunction(Callback(1)),
    ))];
    assert_eq!(registry.declare(info("B", uncallable), object), None);
    assert_eq!(registry.len(), 1);
    assert_eq!(registry.declare(info("C", vec![]), object), Some(TypeId(1)));
    assert_eq!(registry.len(), 2);
}

#[test]
fn module_of_the_class_qualifies_the_name() {
    let gil = GILGuard::assume_acquired();
    let (mut registry, object) = registry_with_object();
    let mut class = info("Shape", vec![]);
    class.module = Some("geometry");
    let shape = registry.declare(class, object).unwrap();
    assert_eq!(registry.init_type(gil.python(), shape), InitStep::Finalize(shape));
    assert_eq!(
        registry.type_object(shape).unwrap().tp_name,
        Some(b"geometry.Shape\0".to_vec())
    );
}
