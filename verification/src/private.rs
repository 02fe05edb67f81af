//! Access to the address behind a handle.
use vstd::prelude::*;

verus! {

/// An object that stands for a native object of the synthesizer.
pub trait HasHandle {
    /// The address of the native object.
    spec fn handle(&self) -> usize;

    /// The address of the native object, which is never null.
    fn get_handle(&self) -> (handle: usize)
        ensures
            handle == self.handle(),
            handle != 0,
    ;
}

} // verus!
