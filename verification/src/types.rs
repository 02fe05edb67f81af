//! Plain value types shared by the whole binding.
use vstd::prelude::*;

verus! {

/// Channel number
pub type Chan = u32;

/// Key number
pub type Key = u32;

/// Velocity value
pub type Vel = u32;

/// Control number
pub type Ctrl = u32;

/// Control value
pub type Val = u32;

/// Program number (`0..=127`)
pub type Prog = u32;

/// Bank number (`0..=127`)
pub type Bank = u32;

/// Font Id
pub type FontId = u32;

/// Preset Id
pub type PresetId = u32;

/// Common error
#[derive(Debug, Clone, PartialEq, Eq, Hash)]
pub enum Error {
    /// The synthesizer could not allocate an object.
    Alloc,
    /// The synthesizer reported a failure, with its own description of it.
    Fluid(String),
    /// A path cannot be handed over as a NUL-terminated string.
    Path,
}

/// Result without value
pub type Status = Result<(), Error>;

/// Turns the address of a freshly created object into a result: the null
/// address means that the allocation failed.
pub fn result_from_ptr(ptr: usize) -> (res: Result<usize, Error>)
    ensures
        ptr == 0 ==> res == Err::<usize, Error>(Error::Alloc),
        ptr != 0 ==> res == Ok::<usize, Error>(ptr),
{
    if ptr == 0 {
        Err(Error::Alloc)
    } else {
        Ok(ptr)
    }
}

/// Turns the address of a looked-up object into an option: the null address
/// means that there is no such object.
pub fn option_from_ptr(ptr: usize) -> (res: Option<usize>)
    ensures
        res == (if ptr == 0 { None } else { Some(ptr) }),
{
    if ptr == 0 {
        None
    } else {
        Some(ptr)
    }
}

} // verus!
