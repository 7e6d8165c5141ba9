use pyvm::object::ObjectRef;
use pyvm::property::{Access, PropertyArgs, PropertyError, PyProperty, SetterValue};

fn full() -> PyProperty {
    let mut p = PyProperty::py_new();
    p.init(PropertyArgs {
        fget: Some(ObjectRef(1)),
        fset: Some(ObjectRef(2)),
        fdel: Some(ObjectRef(3)),
        doc: Some(ObjectRef(4)),
        name: None,
    });
    p
}

#[test]
fn new_property_is_empty() {
    let p = PyProperty::py_new();
    assert_eq!(p.fget(), None);
    assert_eq!(p.fset(), None);
    assert_eq!(p.fdel(), None);
    assert_eq!(p.doc_getter(), None);
}

#[test]
fn get_on_class_and_instance() {
    let p = full();
    assert!(matches!(p.descr_get(None), Ok(Access::Descriptor)));
    match p.descr_get(Some(ObjectRef(9))) {
        Ok(Access::Invoke(c)) => {
            assert_eq!(c.callee, ObjectRef(1));
            assert_eq!(c.args, vec![ObjectRef(9)]);
        }
        _ => panic!("expected a getter call"),
    }
    let e = PyProperty::py_new();
    assert!(matches!(e.descr_get(Some(ObjectRef(9))), Err(PropertyError::NoGetter)));
}

#[test]
fn set_and_delete_calls() {
    let p = full();
    let c = p.set(ObjectRef(9), ObjectRef(8)).unwrap();
    assert_eq!(c.callee, ObjectRef(2));
    assert_eq!(c.args, vec![ObjectRef(9), ObjectRef(8)]);
    let d = p.descr_set(ObjectRef(9), SetterValue::Delete).unwrap();
    assert_eq!(d.callee, ObjectRef(3));
    assert_eq!(d.args, vec![ObjectRef(9)]);
    let e = PyProperty::py_new();
    assert!(matches!(e.set(ObjectRef(9), ObjectRef(8)), Err(PropertyError::NoSetter)));
    assert!(matches!(e.delete(ObjectRef(9)), Err(PropertyError::NoDeleter)));
}

#[test]
fn builders_replace_one_accessor() {
    let p = full();
    let g = p.getter(Some(ObjectRef(7)));
    assert_eq!(g.fget(), Some(ObjectRef(7)));
    assert_eq!(g.fset(), Some(ObjectRef(2)));
    assert_eq!(g.doc_getter(), None);
    let kept = p.setter(None);
    assert_eq!(kept.fset(), Some(ObjectRef(2)));
    let d = p.deleter(Some(ObjectRef(6)));
    assert_eq!(d.fdel(), Some(ObjectRef(6)));
    assert_eq!(d.fget(), Some(ObjectRef(1)));
}

#[test]
fn set_name_needs_two_arguments() {
    let mut p = full();
    assert_eq!(p.set_name(&vec![ObjectRef(1)]), Err(PropertyError::ArgumentCount(1)));
    assert_eq!(p.set_name(&vec![ObjectRef(5), ObjectRef(6)]), Ok(()));
    let mut q = full();
    q.doc_setter(Some(ObjectRef(11)));
    assert_eq!(q.doc_getter(), Some(ObjectRef(11)));
}

#[test]
fn abstractness_follows_accessors() {
    let p = full();
    assert!(p.isabstractmethod(Some(true), None));
    assert!(p.isabstractmethod(None, Some(true)));
    assert!(!p.isabstractmethod(Some(false), Some(false)));
    let e = PyProperty::py_new();
    assert!(!e.isabstractmethod(Some(true), Some(true)));
    assert_eq!(p.set_isabstractmethod(), Some(ObjectRef(1)));
    assert_eq!(e.set_isabstractmethod(), None);
}
