//! References to loaded SoundFonts and to their presets.
use crate::private::HasHandle;
use crate::types::{option_from_ptr, Bank, PresetId};
use std::marker::PhantomData;
use vstd::prelude::*;

verus! {

/// Reference to SoundFont object
pub struct FontRef<'a> {
    handle: usize,
    phantom: PhantomData<&'a ()>,
}

impl<'a> FontRef<'a> {
    #[verifier::type_invariant]
    spec fn not_null(self) -> bool {
        self.handle != 0
    }

    /// The address of the font.
    pub closed spec fn addr(&self) -> usize {
        self.handle
    }

    /// Makes a reference out of the address of a font.
    pub fn from_ptr(handle: usize) -> (font: Self)
        requires
            handle != 0,
        ensures
            font.addr() == handle,
    {
        Self { handle, phantom: PhantomData }
    }

    /// The address of the font.
    pub fn as_ptr(&self) -> (handle: usize)
        ensures
            handle == self.addr(),
            handle != 0,
    {
        proof {
            use_type_invariant(self);
        }
        self.handle
    }

    /// The reference to the font that a lookup found at `ptr`: none where the
    /// lookup gave the null address.
    pub fn lookup(ptr: usize) -> (font: Option<Self>)
        ensures
            font.is_some() <==> ptr != 0,
            font matches Some(f) ==> f.addr() == ptr,
    {
        match option_from_ptr(ptr) {
            Some(handle) => Some(Self::from_ptr(handle)),
            None => None,
        }
    }
}

impl<'a> HasHandle for FontRef<'a> {
    open spec fn handle(&self) -> usize {
        self.addr()
    }

    fn get_handle(&self) -> (handle: usize) {
        self.as_ptr()
    }
}

/// Reference to Preset object
pub struct PresetRef<'a> {
    handle: usize,
    phantom: PhantomData<&'a ()>,
}

impl<'a> PresetRef<'a> {
    #[verifier::type_invariant]
    spec fn not_null(self) -> bool {
        self.handle != 0
    }

    /// The address of the preset.
    pub closed spec fn addr(&self) -> usize {
        self.handle
    }

    /// Makes a reference out of the address of a preset.
    pub fn from_ptr(handle: usize) -> (preset: Self)
        requires
            handle != 0,
        ensures
            preset.addr() == handle,
    {
        Self { handle, phantom: PhantomData }
    }

    /// The reference to the preset that a lookup found at `ptr`: none where
    /// the lookup gave the null address.
    pub fn lookup(ptr: usize) -> (preset: Option<Self>)
        ensures
            preset.is_some() <==> ptr != 0,
            preset matches Some(p) ==> p.addr() == ptr,
    {
        match option_from_ptr(ptr) {
            Some(handle) => Some(Self::from_ptr(handle)),
            None => None,
        }
    }

    /// The bank number that a preset reported as `num`: a negative report
    /// means that the preset has none.
    pub fn banknum_from_raw(num: i32) -> (bank: Option<Bank>)
        ensures
            bank == (if num < 0 { None } else { Some(num as u32) }),
    {
        if num < 0 {
            None
        } else {
            Some(num as u32)
        }
    }

    /// The preset number that a preset reported as `num`: a negative report
    /// means that the preset has none.
    pub fn num_from_raw(num: i32) -> (id: Option<PresetId>)
        ensures
            id == (if num < 0 { None } else { Some(num as u32) }),
    {
        if num < 0 {
            None
        } else {
            Some(num as u32)
        }
    }
}

impl<'a> HasHandle for PresetRef<'a> {
    open spec fn handle(&self) -> usize {
        self.addr()
    }

    fn get_handle(&self) -> (handle: usize) {
        proof {
            use_type_invariant(self);
        }
        self.handle
    }
}

} // verus!
