use pyvm::argument::{ArgCallable, ArgError, ArgIterable, ArgMapping, IterSource, MappingMethods};
use pyvm::object::ObjectRef;

#[test]
fn callable_arguments() {
    assert!(matches!(
        ArgCallable::try_from_object(ObjectRef(1), false),
        Err(ArgError::NotCallable)
    ));
    let c = ArgCallable::try_from_object(ObjectRef(1), true).unwrap();
    let call = c.invoke(vec![ObjectRef(2), ObjectRef(3)]);
    assert_eq!(call.callee, ObjectRef(1));
    assert_eq!(call.args, vec![ObjectRef(2), ObjectRef(3)]);
    assert_eq!(c.into_object(), ObjectRef(1));
}

#[test]
fn iterable_arguments() {
    assert!(matches!(
        ArgIterable::try_from_object(ObjectRef(1), None, false),
        Err(ArgError::NotIterable)
    ));
    let slot = ArgIterable::try_from_object(ObjectRef(1), Some(ObjectRef(5)), false).unwrap();
    assert_eq!(slot.iter(), IterSource::Slot { func: ObjectRef(5), target: ObjectRef(1) });
    let seq = ArgIterable::try_from_object(ObjectRef(2), None, true).unwrap();
    assert_eq!(seq.iter(), IterSource::Sequence { target: ObjectRef(2) });
}

#[test]
fn mapping_arguments() {
    let m = ArgMapping::from_dict_exact(ObjectRef(4));
    let v = m.mapping();
    assert_eq!(v.obj, ObjectRef(4));
    assert_eq!(v.methods, MappingMethods::Dict);
    assert!(matches!(
        ArgMapping::try_from_object(ObjectRef(4), None),
        Err(ArgError::NotMapping)
    ));
    let t = ArgMapping::try_from_object(ObjectRef(4), Some(MappingMethods::OfType(ObjectRef(8))))
        .unwrap();
    assert_eq!(t.mapping().methods, MappingMethods::OfType(ObjectRef(8)));
    assert_eq!(t.into_object(), ObjectRef(4));
}
