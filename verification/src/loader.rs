//! The SoundFont loader and the file reading interface that it can be given.
//!
//! The synthesizer reads SoundFont files through five callbacks.  An
//! application that keeps its SoundFonts elsewhere than in the file system
//! implements `FileApi`; the functions here turn what the synthesizer asks
//! into calls of that interface and the answers into what the synthesizer
//! expects.
use crate::cstr::{c_text_is_unique, is_c_text, str_from_c_buffer};
use crate::private::HasHandle;
use vstd::prelude::*;
use vstd::string::StringSliceAdditionalSpecFns;
use vstd::utf8::valid_utf8;

verus! {

/// The status with which a callback reports success.
pub const FLUID_OK: i32 = 0;

/// The status with which a callback reports failure.
pub const FLUID_FAILED: i32 = -1;

/// The origin of a seek: the beginning of the file.
pub const SEEK_SET: i32 = 0;

/// The origin of a seek: the current position.
pub const SEEK_CUR: i32 = 1;

/// The origin of a seek: the end of the file.
pub const SEEK_END: i32 = 2;

/// A position to seek to in a file.
#[derive(Debug, Clone, Copy, PartialEq, Eq, Hash)]
pub enum SeekFrom {
    /// So many bytes from the beginning of the file.
    Start(u64),
    /// So many bytes from the end of the file.
    End(i64),
    /// So many bytes from the current position.
    Current(i64),
}

impl SeekFrom {
    /// The position that `offset` bytes from `origin` is, if `origin` is
    /// one of the three origins.  An offset from the beginning is taken as
    /// unsigned.
    pub open spec fn decode(offset: i64, origin: i32) -> Option<SeekFrom> {
        if origin == SEEK_SET {
            Some(SeekFrom::Start(offset as u64))
        } else if origin == SEEK_END {
            Some(SeekFrom::End(offset))
        } else if origin == SEEK_CUR {
            Some(SeekFrom::Current(offset))
        } else {
            None
        }
    }

    /// The position that `offset` bytes from `origin` is.
    pub fn from_raw(offset: i64, origin: i32) -> (pos: Option<SeekFrom>)
        ensures
            pos == Self::decode(offset, origin),
    {
        if origin == SEEK_SET {
            Some(SeekFrom::Start(offset as u64))
        } else if origin == SEEK_END {
            Some(SeekFrom::End(offset))
        } else if origin == SEEK_CUR {
            Some(SeekFrom::Current(offset))
        } else {
            None
        }
    }
}

/// The status that reports `ok`.
pub open spec fn status_of(ok: bool) -> i32 {
    if ok {
        FLUID_OK
    } else {
        FLUID_FAILED
    }
}

/// The status that reports to the synthesizer whether a callback did what
/// it was asked to do.
pub fn status(ok: bool) -> (code: i32)
    ensures
        code == status_of(ok),
{
    if ok {
        FLUID_OK
    } else {
        FLUID_FAILED
    }
}

/// The file reading API
///
/// Application can provide its own File API to override default.
/// For example, this may be useful in cases when soundfonts isn't located in
/// the file system.
///
/// Each method has a relation that says what a call of it may do.  An
/// implementation that says nothing of itself leaves the relations as they
/// are, and every outcome is allowed; one that states them is held to them.
pub trait FileApi {
    /// The type for file descriptor
    type File;

    /// Whether opening the file with the name `filename`, given as its
    /// bytes, may give `file` and leave the interface in the state `next`.
    open spec fn opened(
        &self,
        next: &Self,
        filename: Seq<u8>,
        file: Option<Self::File>,
    ) -> bool {
        true
    }

    /// Whether reading from `file` into a buffer that holds `buf` may leave
    /// the file as `next` and the buffer holding `filled`, and report `done`.
    open spec fn was_read(
        file: Self::File,
        next: Self::File,
        buf: Seq<u8>,
        filled: Seq<u8>,
        done: bool,
    ) -> bool {
        true
    }

    /// Whether seeking to `pos` in `file` may leave the file as `next` and
    /// report `done`.
    open spec fn sought(file: Self::File, next: Self::File, pos: SeekFrom, done: bool) -> bool {
        true
    }

    /// Whether `file` may give `pos` as its current reading position.
    open spec fn told(file: Self::File, pos: Option<u64>) -> bool {
        true
    }

    /// Whether closing `file` may leave it as `next` and report `done`.
    open spec fn closed(file: Self::File, next: Self::File, done: bool) -> bool {
        true
    }

    /// Open file with specified name
    fn open(&mut self, filename: &str) -> (file: Option<Self::File>)
        ensures
            old(self).opened(final(self), filename.spec_bytes(), file),
    ;

    /// Read binary data from file descriptor
    fn read(file: &mut Self::File, buf: &mut [u8]) -> (done: bool)
        ensures
            Self::was_read(*old(file), *final(file), old(buf)@, final(buf)@, done),
    ;

    /// Seek current reading position
    fn seek(file: &mut Self::File, pos: SeekFrom) -> (done: bool)
        ensures
            Self::sought(*old(file), *final(file), pos, done),
    ;

    /// Get current reading position from beginning of file
    fn tell(file: &Self::File) -> (pos: Option<u64>)
        ensures
            Self::told(*file, pos),
    ;

    /// Close file descriptor
    fn close(file: &mut Self::File) -> (done: bool)
        ensures
            Self::closed(*old(file), *final(file), done),
    ;
}

/// Opens the file that the synthesizer asks for.  `filename` holds the name
/// as a NUL-terminated string.  Where it holds no name that is UTF-8, no file
/// is opened and the interface is not asked.  Where it holds one, the
/// interface is asked to open the file of that name, and what it gives is
/// handed on.
pub fn open_wrapper<F: FileApi>(api: &mut F, filename: &[u8]) -> (file: Option<F::File>)
    ensures
        (forall|name: Seq<u8>| is_c_text(filename@, name) ==> !valid_utf8(name)) ==> file.is_none()
            && *final(api) == *old(api),
        forall|name: Seq<u8>|
            is_c_text(filename@, name) && valid_utf8(name) ==> old(api).opened(
                final(api),
                name,
                file,
            ),
{
    match str_from_c_buffer(filename) {
        Some(name) => {
            let file = api.open(name);
            proof {
                assert forall|other: Seq<u8>|
                    is_c_text(filename@, other) && valid_utf8(other) implies old(api).opened(
                    final(api),
                    other,
                    file,
                ) by {
                    c_text_is_unique(filename@, other, name.spec_bytes());
                }
            }
            file
        },
        None => None,
    }
}

/// Asks the file to fill `buf` and reports with a status whether it did.
pub fn read_wrapper<F: FileApi>(file: &mut F::File, buf: &mut [u8]) -> (status: i32)
    ensures
        status == FLUID_OK || status == FLUID_FAILED,
        F::was_read(*old(file), *final(file), old(buf)@, final(buf)@, status == FLUID_OK),
{
    status(F::read(file, buf))
}

/// Seeks to `offset` bytes from `origin` and reports with a status whether
/// the file did so.  An origin that is none of the three is a failure, and
/// the file is not touched.
pub fn seek_wrapper<F: FileApi>(file: &mut F::File, offset: i64, origin: i32) -> (status: i32)
    ensures
        status == FLUID_OK || status == FLUID_FAILED,
        SeekFrom::decode(offset, origin).is_none() ==> status == FLUID_FAILED && *final(file)
            == *old(file),
        SeekFrom::decode(offset, origin) matches Some(pos) ==> F::sought(
            *old(file),
            *final(file),
            pos,
            status == FLUID_OK,
        ),
{
    match SeekFrom::from_raw(offset, origin) {
        Some(pos) => status(F::seek(file, pos)),
        None => FLUID_FAILED,
    }
}

/// What is reported for the position `pos` that a file gave.
pub open spec fn tell_value(pos: Option<u64>) -> i64 {
    match pos {
        Some(p) => p as i64,
        None => FLUID_FAILED as i64,
    }
}

/// What is reported for a position that the file gave: the position itself,
/// or the failure status where it gave none.
pub fn tell_result(pos: Option<u64>) -> (res: i64)
    ensures
        res == tell_value(pos),
{
    match pos {
        Some(p) => p as i64,
        None => FLUID_FAILED as i64,
    }
}

/// Asks the file for its current reading position and reports it, or the
/// failure status where the file gives none.
pub fn tell_wrapper<F: FileApi>(file: &F::File) -> (res: i64)
    ensures
        exists|pos: Option<u64>| #[trigger] F::told(*file, pos) && res == tell_value(pos),
{
    let pos = F::tell(file);
    tell_result(pos)
}

/// Asks the file to close and reports with a status whether it did.
pub fn close_wrapper<F: FileApi>(file: &mut F::File) -> (status: i32)
    ensures
        status == FLUID_OK || status == FLUID_FAILED,
        F::closed(*old(file), *final(file), status == FLUID_OK),
{
    status(F::close(file))
}

/// The SoundFont loader object
pub struct Loader {
    handle: usize,
}

impl Loader {
    #[verifier::type_invariant]
    spec fn not_null(self) -> bool {
        self.handle != 0
    }

    /// The address of the loader.
    pub closed spec fn addr(&self) -> usize {
        self.handle
    }

    /// Takes over the loader at `handle`.
    pub fn from_ptr(handle: usize) -> (loader: Self)
        requires
            handle != 0,
        ensures
            loader.addr() == handle,
    {
        Self { handle }
    }

    /// Gives the loader away as its address.
    pub fn into_ptr(self) -> (handle: usize)
        ensures
            handle == self.addr(),
            handle != 0,
    {
        proof {
            use_type_invariant(&self);
        }
        self.handle
    }
}

impl HasHandle for Loader {
    open spec fn handle(&self) -> usize {
        self.addr()
    }

    fn get_handle(&self) -> (handle: usize) {
        proof {
            use_type_invariant(self);
        }
        self.handle
    }
}

} // verus!
