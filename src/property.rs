use crate::object::{Call, ObjectRef};
use vstd::prelude::*;

verus! {

/// The arguments of a property's initialiser; each slot may be absent.
#[derive(Clone, Copy, Debug, PartialEq, Eq, Structural)]
pub struct PropertyArgs {
    pub fget: Option<ObjectRef>,
    pub fset: Option<ObjectRef>,
    pub fdel: Option<ObjectRef>,
    pub doc: Option<ObjectRef>,
    pub name: Option<ObjectRef>,
}

/// Failures of property access.
#[derive(Clone, Copy, Debug, PartialEq, Eq, Structural)]
pub enum PropertyError {
    /// Reading through a property without a getter.
    NoGetter,
    /// Assigning through a property without a setter.
    NoSetter,
    /// Deleting through a property without a deleter.
    NoDeleter,
    /// `__set_name__` was given this many positional arguments instead of two.
    ArgumentCount(usize),
}

/// What an assignment through a descriptor carries.
#[derive(Clone, Copy, Debug, PartialEq, Eq, Structural)]
pub enum SetterValue {
    Assign(ObjectRef),
    Delete,
}

/// The outcome of reading through a property.
pub enum Access {
    /// Read on the class rather than an instance: the property itself.
    Descriptor,
    /// Read on an instance: the getter is to be called.
    Invoke(Call),
}

/// A property descriptor: optional getter, setter and deleter, and optional
/// documentation and name.
pub struct PyProperty {
    getter: Option<ObjectRef>,
    setter: Option<ObjectRef>,
    deleter: Option<ObjectRef>,
    doc: Option<ObjectRef>,
    name: Option<ObjectRef>,
}

impl View for PyProperty {
    type V = PropertyArgs;

    closed spec fn view(&self) -> PropertyArgs {
        PropertyArgs {
            fget: self.getter,
            fset: self.setter,
            fdel: self.deleter,
            doc: self.doc,
            name: self.name,
        }
    }
}

/// The slots that no argument fills.
pub open spec fn empty_slots() -> PropertyArgs {
    PropertyArgs { fget: None, fset: None, fdel: None, doc: None, name: None }
}

impl PyProperty {
    /// A property with every slot empty.
    pub fn py_new() -> (p: PyProperty)
        ensures
            p@ == empty_slots(),
    {
        PyProperty { getter: None, setter: None, deleter: None, doc: None, name: None }
    }

    /// Fills every slot from `args`.
    pub fn init(&mut self, args: PropertyArgs)
        ensures
            final(self)@ == args,
    {
        self.getter = args.fget;
        self.setter = args.fset;
        self.deleter = args.fdel;
        self.doc = args.doc;
        self.name = args.name;
    }

    /// The getter, if any.
    pub fn fget(&self) -> (r: Option<ObjectRef>)
        ensures
            r == self@.fget,
    {
        self.getter
    }

    /// The setter, if any.
    pub fn fset(&self) -> (r: Option<ObjectRef>)
        ensures
            r == self@.fset,
    {
        self.setter
    }

    /// The deleter, if any.
    pub fn fdel(&self) -> (r: Option<ObjectRef>)
        ensures
            r == self@.fdel,
    {
        self.deleter
    }

    /// The documentation, if any.
    pub fn doc_getter(&self) -> (r: Option<ObjectRef>)
        ensures
            r == self@.doc,
    {
        self.doc
    }

    /// Replaces the documentation.
    pub fn doc_setter(&mut self, value: Option<ObjectRef>)
        ensures
            final(self)@ == (PropertyArgs { doc: value, ..old(self)@ }),
    {
        self.doc = value;
    }

    /// Records the attribute name under which the property was bound; the
    /// arguments are the owner class and the name, exactly two of them.
    pub fn set_name(&mut self, args: &Vec<ObjectRef>) -> (r: Result<(), PropertyError>)
        ensures
            args@.len() == 2 ==> r is Ok && final(self)@ == (PropertyArgs {
                name: Some(args@[1]),
                ..old(self)@
            }),
            args@.len() != 2 ==> r == Err::<(), PropertyError>(
                PropertyError::ArgumentCount(args@.len() as usize),
            ) && final(self)@ == old(self)@,
    {
        if args.len() != 2 {
            return Err(PropertyError::ArgumentCount(args.len()));
        }
        self.name = Some(args[1]);
        Ok(())
    }

    /// Reading through the property: on the class (`obj` absent) the
    /// property itself, on an instance a call of the getter with it.
    pub fn descr_get(&self, obj: Option<ObjectRef>) -> (r: Result<Access, PropertyError>)
        ensures
            obj is None ==> r matches Ok(Access::Descriptor),
            obj is Some && self@.fget is None ==> r == Err::<Access, PropertyError>(
                PropertyError::NoGetter,
            ),
            obj is Some && self@.fget is Some ==> (r matches Ok(Access::Invoke(c)) && c.callee
                == self@.fget->0 && c.args@ == seq![obj->0]),
    {
        match obj {
            None => Ok(Access::Descriptor),
            Some(o) => match self.getter {
                Some(g) => Ok(Access::Invoke(Call { callee: g, args: vec![o] })),
                None => Err(PropertyError::NoGetter),
            },
        }
    }

    /// Assigning or deleting through the property: the call of the setter
    /// with the instance and the value, or of the deleter with the instance.
    pub fn descr_set(&self, obj: ObjectRef, value: SetterValue) -> (r: Result<Call, PropertyError>)
        ensures
            match value {
                SetterValue::Assign(v) => match self@.fset {
                    Some(s) => r matches Ok(c) && c.callee == s && c.args@ == seq![obj, v],
                    None => r == Err::<Call, PropertyError>(PropertyError::NoSetter),
                },
                SetterValue::Delete => match self@.fdel {
                    Some(d) => r matches Ok(c) && c.callee == d && c.args@ == seq![obj],
                    None => r == Err::<Call, PropertyError>(PropertyError::NoDeleter),
                },
            },
    {
        match value {
            SetterValue::Assign(v) => match self.setter {
                Some(s) => Ok(Call { callee: s, args: vec![obj, v] }),
                None => Err(PropertyError::NoSetter),
            },
            SetterValue::Delete => match self.deleter {
                Some(d) => Ok(Call { callee: d, args: vec![obj] }),
                None => Err(PropertyError::NoDeleter),
            },
        }
    }

    /// `descr_set` with a value to assign.
    pub fn set(&self, obj: ObjectRef, value: ObjectRef) -> (r: Result<Call, PropertyError>)
        ensures
            match self@.fset {
                Some(s) => r matches Ok(c) && c.callee == s && c.args@ == seq![obj, value],
                None => r == Err::<Call, PropertyError>(PropertyError::NoSetter),
            },
    {
        self.descr_set(obj, SetterValue::Assign(value))
    }

    /// `descr_set` with a deletion.
    pub fn delete(&self, obj: ObjectRef) -> (r: Result<Call, PropertyError>)
        ensures
            match self@.fdel {
                Some(d) => r matches Ok(c) && c.callee == d && c.args@ == seq![obj],
                None => r == Err::<Call, PropertyError>(PropertyError::NoDeleter),
            },
    {
        self.descr_set(obj, SetterValue::Delete)
    }

    /// A new property with `getter` in place of the current one (kept when
    /// `getter` is absent), the same setter and deleter, and no documentation
    /// or name.
    pub fn getter(&self, getter: Option<ObjectRef>) -> (p: PyProperty)
        ensures
            p@ == (PropertyArgs {
                fget: if getter is Some {
                    getter
                } else {
                    self@.fget
                },
                fset: self@.fset,
                fdel: self@.fdel,
                doc: None,
                name: None,
            }),
    {
        PyProperty {
            getter: if getter.is_some() {
                getter
            } else {
                self.getter
            },
            setter: self.setter,
            deleter: self.deleter,
            doc: None,
            name: None,
        }
    }

    /// A new property with `setter` in place of the current one, as `getter`
    /// does for the getter.
    pub fn setter(&self, setter: Option<ObjectRef>) -> (p: PyProperty)
        ensures
            p@ == (PropertyArgs {
                fget: self@.fget,
                fset: if setter is Some {
                    setter
                } else {
                    self@.fset
                },
                fdel: self@.fdel,
                doc: None,
                name: None,
            }),
    {
        PyProperty {
            getter: self.getter,
            setter: if setter.is_some() {
                setter
            } else {
                self.setter
            },
            deleter: self.deleter,
            doc: None,
            name: None,
        }
    }

    /// A new property with `deleter` in place of the current one, as `getter`
    /// does for the getter.
    pub fn deleter(&self, deleter: Option<ObjectRef>) -> (p: PyProperty)
        ensures
            p@ == (PropertyArgs {
                fget: self@.fget,
                fset: self@.fset,
                fdel: if deleter is Some {
                    deleter
                } else {
                    self@.fdel
                },
                doc: None,
                name: None,
            }),
    {
        PyProperty {
            getter: self.getter,
            setter: self.setter,
            deleter: if deleter.is_some() {
                deleter
            } else {
                self.deleter
            },
            doc: None,
            name: None,
        }
    }

    /// Whether the property is abstract: its setter or its getter is.
    /// `getter_flag` and `setter_flag` are the truth of the accessors'
    /// `__isabstractmethod__` attributes, absent where the lookup failed; an
    /// absent accessor or a failed lookup counts as not abstract.
    pub fn isabstractmethod(&self, getter_flag: Option<bool>, setter_flag: Option<bool>) -> (r:
        bool)
        ensures
            r == ((self@.fset is Some && setter_flag == Some(true)) || (self@.fget is Some
                && getter_flag == Some(true))),
    {
        let setter_abstract = match (self.setter, setter_flag) {
            (Some(_), Some(b)) => b,
            _ => false,
        };
        let getter_abstract = match (self.getter, getter_flag) {
            (Some(_), Some(b)) => b,
            _ => false,
        };
        setter_abstract || getter_abstract
    }

    /// The object on which setting `__isabstractmethod__` is to be recorded:
    /// the getter, if there is one.
    pub fn set_isabstractmethod(&self) -> (r: Option<ObjectRef>)
        ensures
            r == self@.fget,
    {
        self.getter
    }
}

} // verus!
