use pyglue::err::ExceptionKind;
use pyglue::err::PyErr;
use pyglue::err::PyResult;
use pyglue::host::Callback;
use pyglue::host::PyTypeObject;
use pyglue::host::TPFLAGS_DEFAULT;
use pyglue::host::TPFLAGS_HAVE_GC;
use pyglue::host::TPFLAGS_HEAPTYPE;
use pyglue::layout::BaseLayout;
use pyglue::layout::LayoutDescriptor;
use pyglue::pyclass::dealloc;
use pyglue::pyclass::default_alloc;
use pyglue::pyclass::tp_free_fallback;
use pyglue::pyclass::Allocation;
use pyglue::pyclass::Deallocation;
use pyglue::pyclass::FreeFallback;
use pyglue::pyclass::IntoInitializer;
use pyglue::pyclass::ObjectRef;
use pyglue::pyclass::PyBaseObject;
use pyglue::pyclass::PyClass;
use pyglue::pyclass::PyClassInitializer;
use pyglue::pyclass::PyClassShell;
use pyglue::pyclass::PyNativeObject;
use pyglue::pyclass::Release;
use pyglue::pyclass::Slot;
use pyglue::python::GILGuard;
use pyglue::type_object::EXTENDED;

const SLOT: usize = std::mem::size_of::<usize>();

fn object() -> BaseLayout {
    BaseLayout::Native { name: "object", size: 16 }
}

fn base_layout() -> LayoutDescriptor {
    LayoutDescriptor::new("Base", object(), 8, false, false).unwrap()
}

fn sub_layout() -> LayoutDescriptor {
    LayoutDescriptor::new("Sub", BaseLayout::Class(Box::new(base_layout())), 24, true, true)
        .unwrap()
}

#[test]
fn layout_adds_base_payload_and_slots() {
    let base = base_layout();
    assert_eq!(base.size, 24);
    assert_eq!(base.dict_offset, None);
    assert_eq!(base.weakref_offset, None);
    assert!(base.need_init());

    let sub = sub_layout();
    assert_eq!(sub.name, "Sub");
    assert_eq!(sub.payload_size, 24);
    assert_eq!(sub.dict_offset, Some(48));
    assert_eq!(sub.weakref_offset, Some(48 + SLOT));
    assert_eq!(sub.size, 48 + 2 * SLOT);
    assert_eq!(sub.base.size(), 24);
    assert_eq!(sub.base.name(), "Base");
    assert!(sub.base.need_init());
    assert!(!sub.base.is_native());
}

#[test]
fn layout_with_one_slot() {
    let only_weakref = LayoutDescriptor::new("W", object(), 4, false, true).unwrap();
    assert_eq!(only_weakref.dict_offset, None);
    assert_eq!(only_weakref.weakref_offset, Some(20));
    assert_eq!(only_weakref.size, 20 + SLOT);

    let only_dict = LayoutDescriptor::new("D", object(), 4, true, false).unwrap();
    assert_eq!(only_dict.dict_offset, Some(20));
    assert_eq!(only_dict.weakref_offset, None);
    assert_eq!(only_dict.size, 20 + SLOT);
}

#[test]
fn layout_of_an_empty_payload_needs_no_init() {
    let layout = LayoutDescriptor::new("Marker", object(), 0, false, false).unwrap();
    assert_eq!(layout.size, 16);
    assert!(!layout.need_init());
    assert!(!object().need_init());
    assert!(object().is_native());
}

#[test]
fn layout_that_does_not_fit_is_refused() {
    let huge = BaseLayout::Native { name: "huge", size: usize::MAX - 4 };
    assert_eq!(LayoutDescriptor::new("X", huge, 5, false, false), None);
    let huge = BaseLayout::Native { name: "huge", size: usize::MAX - 4 };
    assert_eq!(LayoutDescriptor::new("X", huge, 0, true, false), None);
    let huge = BaseLayout::Native { name: "huge", size: usize::MAX - SLOT };
    assert_eq!(LayoutDescriptor::new("X", huge, 0, true, true), None);
    let huge = BaseLayout::Native { name: "huge", size: usize::MAX - SLOT };
    assert!(LayoutDescriptor::new("X", huge, 0, true, false).is_some());
}

#[test]
fn fresh_shell_mirrors_the_layout() {
    let shell: PyClassShell<&str> = PyClassShell::new(&sub_layout());
    assert_eq!(shell.name, "Sub");
    assert!(shell.need_init);
    assert_eq!(shell.pyclass, None);
    assert_eq!(shell.payload(), None);
    assert_eq!(shell.dict, Slot::Null);
    assert_eq!(shell.weakref, Slot::Null);
    match shell.get_super() {
        PyBaseObject::Class(base) => {
            assert_eq!(base.name, "Base");
            assert!(base.need_init);
            assert_eq!(base.pyclass, None);
            assert_eq!(base.dict, Slot::Absent);
            assert_eq!(base.weakref, Slot::Absent);
            assert_eq!(
                base.ob_base,
                PyBaseObject::Native(PyNativeObject { name: "object", size: 16 })
            );
            assert!(base.ob_base.is_native());
        }
        PyBaseObject::Native(_) => panic!("the base of Sub is a native type"),
    }
}

#[test]
fn subtype_payload_alone_fails_for_the_base() {
    let gil = GILGuard::assume_acquired();
    let init = PyClassInitializer::from_value("sub");
    let made = init.create_shell(gil.python(), &sub_layout());
    let e = made.unwrap_err();
    assert_eq!(e.kind, ExceptionKind::RuntimeError);
    assert_eq!(e.message, "Base class 'Base' is not initialized");
}

#[test]
fn both_payloads_are_written_once_each() {
    let gil = GILGuard::assume_acquired();
    let mut init = PyClassInitializer::from_value("sub");
    init.get_super().init("base");
    let shell = init.create_shell(gil.python(), &sub_layout()).unwrap();
    assert_eq!(shell.payload(), Some(&"sub"));
    match shell.get_super() {
        PyBaseObject::Class(base) => assert_eq!(base.payload(), Some(&"base")),
        PyBaseObject::Native(_) => panic!("the base of Sub is a native type"),
    }
    assert_eq!(shell.dict, Slot::Null);
    assert_eq!(shell.weakref, Slot::Null);
}

#[test]
fn own_payload_missing_fails_for_the_type_itself() {
    let gil = GILGuard::assume_acquired();
    let mut init: PyClassInitializer<&str> = PyClassInitializer::new();
    init.get_super().init("base");
    let e = init.create_shell(gil.python(), &sub_layout()).unwrap_err();
    assert_eq!(e.kind, ExceptionKind::RuntimeError);
    assert_eq!(e.message, "Base class 'Sub' is not initialized");
}

#[test]
fn init_class_leaves_what_was_written_on_failure() {
    let mut shell: PyClassShell<&str> = PyClassShell::new(&sub_layout());
    let init = PyClassInitializer::from_value("sub");
    assert!(init.init_class(&mut shell).is_err());
    assert_eq!(shell.pyclass, Some("sub"));
    let fresh_base: PyClassShell<&str> = PyClassShell::new(&base_layout());
    assert_eq!(shell.ob_base, PyBaseObject::Class(Box::new(fresh_base)));
}

#[test]
fn payload_required_further_down_is_found() {
    let gil = GILGuard::assume_acquired();
    let bottom = LayoutDescriptor::new("Bottom", object(), 8, false, false).unwrap();
    let middle =
        LayoutDescriptor::new("Middle", BaseLayout::Class(Box::new(bottom)), 0, false, false)
            .unwrap();
    let top =
        LayoutDescriptor::new("Top", BaseLayout::Class(Box::new(middle)), 4, false, false).unwrap();
    let e = PyClassInitializer::from_value(1u8)
        .create_shell(gil.python(), &top)
        .unwrap_err();
    assert_eq!(e.message, "Base class 'Bottom' is not initialized");

    let mut init = PyClassInitializer::from_value(1u8);
    init.get_super().get_super().init(3u8);
    let shell = init.create_shell(gil.python(), &top).unwrap();
    assert_eq!(shell.pyclass, Some(1));
    match shell.ob_base {
        PyBaseObject::Class(middle) => {
            assert_eq!(middle.pyclass, None);
            match middle.ob_base {
                PyBaseObject::Class(bottom) => assert_eq!(bottom.pyclass, Some(3)),
                PyBaseObject::Native(_) => panic!("Middle extends Bottom"),
            }
        }
        PyBaseObject::Native(_) => panic!("Top extends Middle"),
    }
}

#[test]
fn empty_payloads_need_no_initializer() {
    let gil = GILGuard::assume_acquired();
    let layout = LayoutDescriptor::new("Marker", object(), 0, false, false).unwrap();
    let init: PyClassInitializer<u8> = PyClassInitializer::new();
    let shell = init.create_shell(gil.python(), &layout).unwrap();
    assert_eq!(shell.pyclass, None);
    assert!(!shell.need_init);
}

#[test]
fn initializer_below_a_native_base_is_ignored() {
    let gil = GILGuard::assume_acquired();
    let mut init = PyClassInitializer::from_value(1u8);
    init.get_super().init(2u8);
    let shell = init.create_shell(gil.python(), &base_layout()).unwrap();
    assert_eq!(shell.pyclass, Some(1));
    assert!(shell.ob_base.is_native());
}

#[test]
fn get_super_is_made_once() {
    let mut init = PyClassInitializer::from_value(1u8);
    assert_eq!(init.super_init, None);
    init.get_super().init(2u8);
    init.get_super().get_super().init(3u8);
    init.init(4u8);
    let expected = PyClassInitializer {
        init: Some(4u8),
        super_init: Some(Box::new(PyClassInitializer {
            init: Some(2u8),
            super_init: Some(Box::new(PyClassInitializer { init: Some(3u8), super_init: None })),
        })),
    };
    assert_eq!(init, expected);
}

#[test]
fn get_super_mut_reaches_the_base() {
    let mut shell: PyClassShell<u8> = PyClassShell::new(&sub_layout());
    match shell.get_super_mut() {
        PyBaseObject::Class(base) => base.py_init(5),
        PyBaseObject::Native(_) => panic!("the base of Sub is a native type"),
    }
    match shell.get_super_or() {
        Some(PyBaseObject::Class(base)) => assert_eq!(base.pyclass, Some(5)),
        _ => panic!("the base of Sub is a native type"),
    }
    assert_eq!(shell.pyclass, None);
    assert_eq!(shell.ob_base.first_required(), Some("Base"));
}

#[test]
fn teardown_clears_every_level() {
    let gil = GILGuard::assume_acquired();
    let mut init = PyClassInitializer::from_value("sub");
    init.get_super().init("base");
    let mut shell = init.create_shell(gil.python(), &sub_layout()).unwrap();
    shell.dict = Slot::Object(ObjectRef(7));
    shell.weakref = Slot::Object(ObjectRef(8));
    let mut released = vec![Release::WeakRefs];
    shell.py_drop(&mut released);
    assert_eq!(
        released,
        vec![Release::WeakRefs, Release::Dict(ObjectRef(7)), Release::WeakRefs]
    );
    let fresh: PyClassShell<&str> = PyClassShell::new(&sub_layout());
    assert_eq!(shell, fresh);
}

#[test]
fn teardown_of_empty_slots_releases_nothing() {
    let mut shell: PyClassShell<u8> = PyClassShell::new(&sub_layout());
    shell.py_init(1);
    let mut released = Vec::new();
    shell.py_drop(&mut released);
    assert_eq!(released, vec![]);
    assert_eq!(shell.pyclass, None);
    assert_eq!(shell.dict, Slot::Null);
}

#[test]
fn allocation_routes() {
    let mut base_type = PyTypeObject::new();
    let mut own_type = PyTypeObject::new();
    let native = object();
    let class = BaseLayout::Class(Box::new(base_layout()));

    assert_eq!(
        default_alloc(EXTENDED, &native, &base_type, &own_type),
        Allocation::GenericAlloc
    );
    own_type.tp_alloc = Some(Callback(3));
    assert_eq!(
        default_alloc(EXTENDED, &native, &base_type, &own_type),
        Allocation::TypeAlloc(Callback(3))
    );
    base_type.tp_new = Some(Callback(9));
    assert_eq!(
        default_alloc(EXTENDED, &native, &base_type, &own_type),
        Allocation::BaseNew(Callback(9))
    );
    assert_eq!(
        default_alloc(0, &native, &base_type, &own_type),
        Allocation::TypeAlloc(Callback(3))
    );
    assert_eq!(
        default_alloc(EXTENDED, &class, &base_type, &own_type),
        Allocation::TypeAlloc(Callback(3))
    );
}

#[test]
fn deallocation_routes() {
    let mut ty = PyTypeObject::new();
    ty.tp_flags = TPFLAGS_DEFAULT;
    assert_eq!(dealloc(-1, &ty), Deallocation::Resurrected);
    assert_eq!(
        dealloc(0, &ty),
        Deallocation::Fallback(FreeFallback { gc: false, decref_type: false })
    );
    ty.tp_flags = TPFLAGS_DEFAULT | TPFLAGS_HAVE_GC;
    assert_eq!(tp_free_fallback(&ty), FreeFallback { gc: true, decref_type: false });
    ty.tp_flags = TPFLAGS_DEFAULT | TPFLAGS_HEAPTYPE;
    assert_eq!(tp_free_fallback(&ty), FreeFallback { gc: false, decref_type: true });
    ty.tp_flags = TPFLAGS_DEFAULT | TPFLAGS_HEAPTYPE | TPFLAGS_HAVE_GC;
    assert_eq!(
        dealloc(1, &ty),
        Deallocation::Fallback(FreeFallback { gc: true, decref_type: true })
    );
    ty.tp_free = Some(Callback(4));
    assert_eq!(dealloc(0, &ty), Deallocation::Free(Callback(4)));
    assert_eq!(dealloc(-5, &ty), Deallocation::Resurrected);
}

#[derive(Debug, PartialEq)]
struct Point {
    x: i32,
}

impl PyClass for Point {
    fn layout() -> LayoutDescriptor {
        LayoutDescriptor::new("Point", object(), std::mem::size_of::<Point>(), true, false).unwrap()
    }
}

#[test]
fn new_ref_from_a_payload() {
    let gil = GILGuard::assume_acquired();
    let shell = PyClassShell::new_ref(gil.python(), Point { x: 3 }).unwrap();
    assert_eq!(shell.name, "Point");
    assert_eq!(shell.payload(), Some(&Point { x: 3 }));
    assert_eq!(shell.dict, Slot::Null);
    assert_eq!(shell.weakref, Slot::Absent);
}

#[test]
fn new_ref_from_an_initializer_without_payload() {
    let gil = GILGuard::assume_acquired();
    let init: PyClassInitializer<Point> = PyClassInitializer::new();
    let e = PyClassShell::new_ref(gil.python(), init).unwrap_err();
    assert_eq!(e.message, "Base class 'Point' is not initialized");
}

#[test]
fn new_ref_passes_the_error_of_a_failed_computation() {
    let gil = GILGuard::assume_acquired();
    let failed: PyResult<Point> = Err(PyErr::value_error(String::from("bad point")));
    let e = PyClassShell::new_ref(gil.python(), failed).unwrap_err();
    assert_eq!(e, PyErr::new(ExceptionKind::ValueError, String::from("bad point")));
}

#[test]
fn into_initializer_of_each_source() {
    let from_value = Point { x: 1 }.into_initializer().unwrap();
    assert_eq!(from_value, PyClassInitializer::from_value(Point { x: 1 }));
    let ok: PyResult<Point> = Ok(Point { x: 2 });
    assert_eq!(
        ok.into_initializer().unwrap(),
        PyClassInitializer::from_value(Point { x: 2 })
    );
    let mut init = PyClassInitializer::from_value(Point { x: 3 });
    init.get_super().init(Point { x: 4 });
    let same = PyClassInitializer {
        init: Some(Point { x: 3 }),
        super_init: Some(Box::new(PyClassInitializer::from_value(Point { x: 4 }))),
    };
    assert_eq!(init.into_initializer().unwrap(), same);
    let failed: PyResult<PyClassInitializer<Point>> =
        Err(PyErr::runtime_error(String::from("no")));
    assert_eq!(
        failed.into_initializer().unwrap_err(),
        PyErr::runtime_error(String::from("no"))
    );
}
