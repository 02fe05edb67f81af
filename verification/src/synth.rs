//! The synthesizer object and the reading of its status codes.
use crate::private::HasHandle;
use crate::types::{Error, Status};
use vstd::prelude::*;

pub mod chorus;
pub mod font;
pub mod gen;
pub mod params;
pub mod tuning;
pub mod write;

verus! {

/// The synth object
pub struct Synth {
    handle: usize,
}

impl Synth {
    #[verifier::type_invariant]
    spec fn not_null(self) -> bool {
        self.handle != 0
    }

    /// The address of the synthesizer.
    pub closed spec fn addr(&self) -> usize {
        self.handle
    }

    /// Takes over the synthesizer at `handle`.
    pub fn from_ptr(handle: usize) -> (synth: Self)
        requires
            handle != 0,
        ensures
            synth.addr() == handle,
    {
        Self { handle }
    }

    /// Reads a status code that reports a failure as a negative number and
    /// carries a value otherwise.  The description of the failure is asked
    /// for only where there is one.
    pub fn neg_err<F: FnOnce() -> String>(&self, ret: i32, error: F) -> (res: Result<i32, Error>)
        requires
            ret < 0 ==> error.requires(()),
        ensures
            ret >= 0 ==> res == Ok::<i32, Error>(ret),
            ret < 0 ==> (res matches Err(Error::Fluid(text)) && error.ensures((), text)),
    {
        if ret < 0 {
            Err(Error::Fluid(error()))
        } else {
            Ok(ret)
        }
    }

    /// Reads a status code that reports success as zero.  The description of
    /// the failure is asked for only where there is one.
    pub fn zero_ok<F: FnOnce() -> String>(&self, ret: i32, error: F) -> (res: Status)
        requires
            ret != 0 ==> error.requires(()),
        ensures
            ret == 0 ==> res == Ok::<(), Error>(()),
            ret != 0 ==> (res matches Err(Error::Fluid(text)) && error.ensures((), text)),
    {
        if ret == 0 {
            Ok(())
        } else {
            Err(Error::Fluid(error()))
        }
    }

    /// Reads a status code as `zero_ok` does and, on success, hands out
    /// `value`: what the call stored.
    pub fn zero_ok_with<V, F: FnOnce() -> String>(&self, ret: i32, value: V, error: F) -> (res:
        Result<V, Error>)
        requires
            ret != 0 ==> error.requires(()),
        ensures
            ret == 0 ==> res == Ok::<V, Error>(value),
            ret != 0 ==> (res matches Err(Error::Fluid(text)) && error.ensures((), text)),
    {
        match self.zero_ok(ret, error) {
            Ok(()) => Ok(value),
            Err(e) => Err(e),
        }
    }

    /// Reads a status code as `zero_ok` does and, on success, hands out the
    /// value that the call stored, as an unsigned number.
    pub fn zero_ok_value<F: FnOnce() -> String>(&self, ret: i32, value: i32, error: F) -> (res:
        Result<u32, Error>)
        requires
            ret != 0 ==> error.requires(()),
        ensures
            ret == 0 ==> res == Ok::<u32, Error>(value as u32),
            ret != 0 ==> (res matches Err(Error::Fluid(text)) && error.ensures((), text)),
    {
        match self.zero_ok(ret, error) {
            Ok(()) => Ok(value as u32),
            Err(e) => Err(e),
        }
    }

    /// Reads a status code as `neg_err` does and hands out its value as an
    /// unsigned number.
    pub fn neg_err_value<F: FnOnce() -> String>(&self, ret: i32, error: F) -> (res: Result<
        u32,
        Error,
    >)
        requires
            ret < 0 ==> error.requires(()),
        ensures
            ret >= 0 ==> res == Ok::<u32, Error>(ret as u32),
            ret < 0 ==> (res matches Err(Error::Fluid(text)) && error.ensures((), text)),
    {
        match self.neg_err(ret, error) {
            Ok(value) => Ok(value as u32),
            Err(e) => Err(e),
        }
    }
}

impl HasHandle for Synth {
    open spec fn handle(&self) -> usize {
        self.addr()
    }

    fn get_handle(&self) -> (handle: usize) {
        proof {
            use_type_invariant(self);
        }
        self.handle
    }
}

} // verus!
