use crate::object::{Call, ObjectRef};
use vstd::prelude::*;

verus! {

/// Why an argument was refused.
#[derive(Clone, Copy, Debug, PartialEq, Eq, Structural)]
pub enum ArgError {
    /// The object cannot be called.
    NotCallable,
    /// The object has neither an iteration slot nor `__getitem__`.
    NotIterable,
    /// The object does not follow the mapping protocol.
    NotMapping,
}

/// An argument that is known to be callable.
pub struct ArgCallable {
    obj: ObjectRef,
}

impl ArgCallable {
    /// The wrapped object.
    pub closed spec fn object(&self) -> ObjectRef {
        self.obj
    }

    /// Accepts `obj` when the runtime reports it callable.
    pub fn try_from_object(obj: ObjectRef, is_callable: bool) -> (r: Result<
        ArgCallable,
        ArgError,
    >)
        ensures
            is_callable ==> (r matches Ok(c) && c.object() == obj),
            !is_callable ==> r == Err::<ArgCallable, ArgError>(ArgError::NotCallable),
    {
        if is_callable {
            Ok(ArgCallable { obj })
        } else {
            Err(ArgError::NotCallable)
        }
    }

    /// The call of the wrapped object with `args`.
    pub fn invoke(&self, args: Vec<ObjectRef>) -> (c: Call)
        ensures
            c.callee == self.object(),
            c.args@ == args@,
    {
        Call { callee: self.obj, args }
    }

    /// The wrapped object.
    pub fn into_object(self) -> (o: ObjectRef)
        ensures
            o == self.object(),
    {
        self.obj
    }
}

/// How iteration over an iterable argument starts.
#[derive(Clone, Copy, Debug, PartialEq, Eq, Structural)]
pub enum IterSource {
    /// Call the type's iteration slot `func` on `target`.
    Slot { func: ObjectRef, target: ObjectRef },
    /// Walk `target` by index through `__getitem__`.
    Sequence { target: ObjectRef },
}

/// An argument that follows the iteration protocol.
pub struct ArgIterable {
    iterable: ObjectRef,
    iterfn: Option<ObjectRef>,
}

impl ArgIterable {
    /// The wrapped object.
    pub closed spec fn object(&self) -> ObjectRef {
        self.iterable
    }

    /// The iteration slot found on the object's type, if any.
    pub closed spec fn slot(&self) -> Option<ObjectRef> {
        self.iterfn
    }

    /// Accepts `obj` when its type has an iteration slot (`iter_slot`, the
    /// first found along the method resolution order) or defines
    /// `__getitem__`.
    pub fn try_from_object(obj: ObjectRef, iter_slot: Option<ObjectRef>, has_getitem: bool) -> (r:
        Result<ArgIterable, ArgError>)
        ensures
            (iter_slot is Some || has_getitem) ==> (r matches Ok(a) && a.object() == obj
                && a.slot() == iter_slot),
            !(iter_slot is Some || has_getitem) ==> r == Err::<ArgIterable, ArgError>(
                ArgError::NotIterable,
            ),
    {
        if iter_slot.is_none() && !has_getitem {
            return Err(ArgError::NotIterable);
        }
        Ok(ArgIterable { iterable: obj, iterfn: iter_slot })
    }

    /// How to obtain an iterator: through the slot when there is one, else
    /// by index.
    pub fn iter(&self) -> (s: IterSource)
        ensures
            match self.slot() {
                Some(f) => s == IterSource::Slot { func: f, target: self.object() },
                None => s == IterSource::Sequence { target: self.object() },
            },
    {
        match self.iterfn {
            Some(f) => IterSource::Slot { func: f, target: self.iterable },
            None => IterSource::Sequence { target: self.iterable },
        }
    }
}

/// Which table of mapping operations serves an object.
#[derive(Clone, Copy, Debug, PartialEq, Eq, Structural)]
pub enum MappingMethods {
    /// The table of the exact dictionary type.
    Dict,
    /// The table found on the object's type, named by that type.
    OfType(ObjectRef),
}

/// A mapping view of an object: the object and the table that serves it.
#[derive(Clone, Copy, Debug, PartialEq, Eq, Structural)]
pub struct Mapping {
    pub obj: ObjectRef,
    pub methods: MappingMethods,
}

/// An argument that follows the mapping protocol.
pub struct ArgMapping {
    obj: ObjectRef,
    mapping_methods: MappingMethods,
}

impl ArgMapping {
    /// The wrapped object.
    pub closed spec fn object(&self) -> ObjectRef {
        self.obj
    }

    /// The table that serves the wrapped object.
    pub closed spec fn methods(&self) -> MappingMethods {
        self.mapping_methods
    }

    /// Wraps an object of the exact dictionary type.
    pub fn from_dict_exact(dict: ObjectRef) -> (m: ArgMapping)
        ensures
            m.object() == dict,
            m.methods() == MappingMethods::Dict,
    {
        ArgMapping { obj: dict, mapping_methods: MappingMethods::Dict }
    }

    /// Accepts `obj` when its type offers a mapping table (`methods`).
    pub fn try_from_object(obj: ObjectRef, methods: Option<MappingMethods>) -> (r: Result<
        ArgMapping,
        ArgError,
    >)
        ensures
            match methods {
                Some(t) => r matches Ok(m) && m.object() == obj && m.methods() == t,
                None => r == Err::<ArgMapping, ArgError>(ArgError::NotMapping),
            },
    {
        match methods {
            Some(t) => Ok(ArgMapping { obj, mapping_methods: t }),
            None => Err(ArgError::NotMapping),
        }
    }

    /// The mapping view of the wrapped object.
    pub fn mapping(&self) -> (m: Mapping)
        ensures
            m == (Mapping { obj: self.object(), methods: self.methods() }),
    {
        Mapping { obj: self.obj, methods: self.mapping_methods }
    }

    /// The wrapped object.
    pub fn into_object(self) -> (o: ObjectRef)
        ensures
            o == self.object(),
    {
        self.obj
    }
}

} // verus!
