//! NUL-terminated byte strings.
//!
//! Names, paths and messages cross the boundary to the synthesizer as byte
//! strings that end at their first zero byte.  The functions here build such
//! strings from Rust text and read them back out of buffers.
use vstd::prelude::*;
use vstd::slice::slice_subrange;
use vstd::string::StringSliceAdditionalSpecFns;
use vstd::utf8::valid_utf8;

verus! {

/// Whether a zero byte occurs anywhere in `bytes`.
pub open spec fn has_nul(bytes: Seq<u8>) -> bool {
    exists|i: int| 0 <= i < bytes.len() && bytes[i] == 0u8
}

/// Whether `text` is what a reader that stops at the first zero byte takes
/// out of `buf`: the bytes in front of that zero.
pub open spec fn is_c_text(buf: Seq<u8>, text: Seq<u8>) -> bool {
    &&& text.len() < buf.len()
    &&& text =~= buf.subrange(0, text.len() as int)
    &&& !has_nul(text)
    &&& buf[text.len() as int] == 0u8
}

/// A buffer holds at most one text: two readings of it agree.
pub proof fn c_text_is_unique(buf: Seq<u8>, a: Seq<u8>, b: Seq<u8>)
    requires
        is_c_text(buf, a),
        is_c_text(buf, b),
    ensures
        a == b,
{
    if a.len() < b.len() {
        assert(b[a.len() as int] == buf.subrange(0, b.len() as int)[a.len() as int]);
        assert(b[a.len() as int] == 0u8);
    } else if b.len() < a.len() {
        assert(a[b.len() as int] == buf.subrange(0, a.len() as int)[b.len() as int]);
        assert(a[b.len() as int] == 0u8);
    } else {
        assert(a =~= b);
    }
}

/// A buffer without a zero byte holds no text at all.
pub proof fn unterminated_has_no_text(buf: Seq<u8>, text: Seq<u8>)
    requires
        !has_nul(buf),
    ensures
        !is_c_text(buf, text),
{
    if text.len() < buf.len() {
        assert(buf[text.len() as int] != 0u8);
    }
}

/// The position of the first zero byte of `buf`, if it has one.
pub fn find_nul(buf: &[u8]) -> (pos: Option<usize>)
    ensures
        pos.is_some() <==> has_nul(buf@),
        pos matches Some(i) ==> i < buf.len() && buf@[i as int] == 0u8 && !has_nul(
            buf@.subrange(0, i as int),
        ),
{
    let mut i: usize = 0;
    while i < buf.len()
        invariant
            i <= buf.len(),
            forall|j: int| 0 <= j < i ==> buf@[j] != 0u8,
        decreases buf.len() - i,
    {
        if buf[i] == 0 {
            return Some(i);
        }
        i += 1;
    }
    None
}

/// Copies `bytes` and appends the terminating zero byte, whatever `bytes`
/// holds: a zero byte inside it cuts the text short for the reader.
pub fn terminate(bytes: &[u8]) -> (out: Vec<u8>)
    ensures
        out@ == bytes@.push(0u8),
{
    let mut out: Vec<u8> = Vec::new();
    let mut i: usize = 0;
    while i < bytes.len()
        invariant
            i <= bytes.len(),
            out@ =~= bytes@.subrange(0, i as int),
        decreases bytes.len() - i,
    {
        out.push(bytes[i]);
        i += 1;
    }
    out.push(0);
    assert(bytes@.subrange(0, bytes.len() as int) =~= bytes@);
    out
}

/// Builds the NUL-terminated form of `bytes`, or nothing where `bytes`
/// itself holds a zero byte and so cannot be handed over whole.
pub fn to_c_string(bytes: &[u8]) -> (out: Option<Vec<u8>>)
    ensures
        out.is_some() <==> !has_nul(bytes@),
        out matches Some(v) ==> v@ == bytes@.push(0u8) && is_c_text(v@, bytes@),
{
    match find_nul(bytes) {
        Some(_) => None,
        None => {
            let v = terminate(bytes);
            assert(v@.subrange(0, bytes@.len() as int) =~= bytes@);
            Some(v)
        },
    }
}

} // verus!

verus! {

/// The error of `core::str::from_utf8`.  Nothing is read out of it: that
/// there is one says that the bytes are not UTF-8.
#[verifier::external_type_specification]
#[verifier::external_body]
pub struct ExUtf8Error(core::str::Utf8Error);

/// `core::str::from_utf8` succeeds exactly on the byte strings that are
/// UTF-8, and then hands out the same bytes as text.
pub assume_specification[ core::str::from_utf8 ](v: &[u8]) -> (res: Result<
    &str,
    core::str::Utf8Error,
>)
    ensures
        res.is_ok() <==> valid_utf8(v@),
        res matches Ok(s) ==> s.spec_bytes() == v@,
;

/// Reads the text that `buf` holds in front of its first zero byte as a
/// string.  There is none where `buf` has no zero byte, and none where the
/// bytes in front of it are not UTF-8.
pub fn str_from_c_buffer(buf: &[u8]) -> (out: Option<&str>)
    ensures
        out matches Some(s) ==> is_c_text(buf@, s.spec_bytes()) && valid_utf8(s.spec_bytes()),
        out.is_none() ==> forall|text: Seq<u8>| is_c_text(buf@, text) ==> !valid_utf8(text),
{
    match find_nul(buf) {
        None => {
            assert forall|text: Seq<u8>| is_c_text(buf@, text) implies !valid_utf8(text) by {
                unterminated_has_no_text(buf@, text);
            }
            None
        },
        Some(end) => {
            let head = slice_subrange(buf, 0, end);
            assert(is_c_text(buf@, head@)) by {
                assert(head@.subrange(0, head@.len() as int) =~= head@);
            }
            match core::str::from_utf8(head) {
                Ok(s) => Some(s),
                Err(_) => {
                    assert forall|text: Seq<u8>| is_c_text(buf@, text) implies !valid_utf8(
                        text,
                    ) by {
                        c_text_is_unique(buf@, text, head@);
                    }
                    None
                },
            }
        },
    }
}

} // verus!
