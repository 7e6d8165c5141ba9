use vstd::prelude::*;

verus! {

/// A handle on a runtime object; two handles are equal when they name the
/// same object.
#[derive(Clone, Copy, Debug, PartialEq, Eq, Structural)]
pub struct ObjectRef(pub u64);

/// A call that the runtime is asked to perform: `callee(*args)`.
pub struct Call {
    pub callee: ObjectRef,
    pub args: Vec<ObjectRef>,
}

} // verus!
