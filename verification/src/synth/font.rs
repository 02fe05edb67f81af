//! Loading SoundFonts and walking over the loaded ones.
use crate::cstr::{has_nul, is_c_text, to_c_string};
use crate::font::FontRef;
use crate::types::Error;
use std::marker::PhantomData;
use vstd::prelude::*;
use vstd::string::StringSliceAdditionalSpecFns;

verus! {

/// The file name of a SoundFont as it is handed to the synthesizer: the
/// bytes of the name with a terminating zero byte.  `filename` is the text of
/// the path, or nothing where the path is no text.  A path that is no text,
/// or whose text holds a zero byte, is refused.
pub fn sfload_path(filename: Option<&str>) -> (res: Result<Vec<u8>, Error>)
    ensures
        match filename {
            Some(name) => if has_nul(name.spec_bytes()) {
                res == Err::<Vec<u8>, Error>(Error::Path)
            } else {
                res matches Ok(v) && v@ == name.spec_bytes().push(0u8) && is_c_text(
                    v@,
                    name.spec_bytes(),
                )
            },
            None => res == Err::<Vec<u8>, Error>(Error::Path),
        },
{
    match filename {
        Some(name) => match to_c_string(name.as_bytes()) {
            Some(v) => Ok(v),
            None => Err(Error::Path),
        },
        None => Err(Error::Path),
    }
}

/// The iterator over loaded SoundFonts.
///
/// The fonts lie on a stack and are looked up by their place on it, from
/// the top down.  The iterator keeps the place to look at next.
pub struct FontIter<'a> {
    handle: usize,
    phantom: PhantomData<&'a ()>,
    font_no: u32,
}

impl<'a> FontIter<'a> {
    #[verifier::type_invariant]
    spec fn not_null(self) -> bool {
        self.handle != 0
    }

    /// The address of the synthesizer whose fonts are walked over.
    pub closed spec fn addr(&self) -> usize {
        self.handle
    }

    /// The place on the stack that is looked at next.
    pub closed spec fn position(&self) -> u32 {
        self.font_no
    }

    /// Starts at the top of the stack of the synthesizer at `handle`.
    pub fn from_ptr(handle: usize) -> (iter: Self)
        requires
            handle != 0,
        ensures
            iter.addr() == handle,
            iter.position() == 0,
    {
        Self { handle, phantom: PhantomData, font_no: 0 }
    }

    /// The place on the stack that is looked at next.
    pub fn font_no(&self) -> (num: u32)
        ensures
            num == self.position(),
    {
        self.font_no
    }

    /// Takes the outcome `ptr` of the lookup at the present place.  Where a
    /// font was found, it is handed out and the iterator moves on by one
    /// place; where none was found, the walk is over and the iterator stays.
    pub fn next(&mut self, ptr: usize) -> (font: Option<FontRef<'a>>)
        requires
            old(self).position() < u32::MAX,
        ensures
            font.is_some() <==> ptr != 0,
            font matches Some(f) ==> f.addr() == ptr,
            final(self).addr() == old(self).addr(),
            final(self).position() == (if ptr != 0 {
                old(self).position() + 1
            } else {
                old(self).position() as int
            }),
    {
        proof {
            use_type_invariant(&*self);
        }
        let font = FontRef::lookup(ptr);
        if font.is_some() {
            self.font_no += 1;
        }
        font
    }
}

} // verus!
