//! Reading the engine's fixed-capacity diagnostic buffer.
use vstd::prelude::*;

verus! {

/// Capacity of the diagnostic buffer handed to the engine when it compiles.
pub const DEFAULT_ERROR_BUF_SIZE: usize = 128;

/// Message used when the engine rejects a module without saying why.
pub open spec fn load_failed_message() -> Seq<char> {
    "load module failed"@
}

/// Index of the first NUL byte of `b` at or after `i`, or `b.len()` when
/// there is none.
pub open spec fn nul_from(b: Seq<u8>, i: int) -> int
    decreases b.len() - i,
{
    if i >= b.len() || b[i] == 0 {
        i
    } else {
        nul_from(b, i + 1)
    }
}

/// The C string held at the start of `b`: every byte before the first NUL,
/// or all of `b` when it holds no NUL.
pub open spec fn c_str_bytes(b: Seq<u8>) -> Seq<u8> {
    b.subrange(0, nul_from(b, 0))
}

/// The message carried by the error reported when the engine rejects a module
/// and leaves `b` in its diagnostic buffer.
pub open spec fn failure_message(b: Seq<u8>) -> Seq<char> {
    if c_str_bytes(b).len() > 0 {
        diagnostic(b)
    } else {
        load_failed_message()
    }
}

/// What `String::from_utf8_lossy` makes of a byte sequence.
pub uninterp spec fn utf8_lossy(b: Seq<u8>) -> Seq<char>;

/// The diagnostic that a buffer written by the engine holds.
pub open spec fn diagnostic(b: Seq<u8>) -> Seq<char> {
    utf8_lossy(c_str_bytes(b))
}

proof fn lemma_nul_from_bounds(b: Seq<u8>, i: int)
    requires
        0 <= i <= b.len(),
    ensures
        i <= nul_from(b, i) <= b.len(),
        nul_from(b, i) < b.len() ==> b[nul_from(b, i)] == 0,
        forall|j: int| i <= j < nul_from(b, i) ==> b[j] != 0,
    decreases b.len() - i,
{
    if i < b.len() && b[i] != 0 {
        lemma_nul_from_bounds(b, i + 1);
    }
}

/// Relies on `String::from_utf8_lossy`: the result depends on the bytes alone;
/// no bytes give the empty string, and each byte is either part of a decoded
/// character or replaced by U+FFFD, so some bytes give some characters.
#[verifier::external_body]
fn decode_lossy(b: &[u8]) -> (r: String)
    ensures
        r@ == utf8_lossy(b@),
        b@.len() == 0 <==> r@.len() == 0,
{
    String::from_utf8_lossy(b).into_owned()
}

/// The bytes of `buf` up to, and not including, its first NUL byte.
pub fn c_str_prefix(buf: &[u8]) -> (r: Vec<u8>)
    ensures
        r@ == c_str_bytes(buf@),
{
    let mut r: Vec<u8> = Vec::new();
    let mut i: usize = 0;
    while i < buf.len() && buf[i] != 0
        invariant
            0 <= i <= buf@.len(),
            nul_from(buf@, i as int) == nul_from(buf@, 0),
            r@ == buf@.subrange(0, i as int),
        decreases buf@.len() - i,
    {
        r.push(buf[i]);
        i = i + 1;
        assert(r@ =~= buf@.subrange(0, i as int));
    }
    r
}

/// The diagnostic that the engine wrote into `error_buf`, as text.
pub fn error_buf_to_string(error_buf: &[u8]) -> (r: String)
    ensures
        r@ == diagnostic(error_buf@),
        r@.len() == 0 <==> c_str_bytes(error_buf@).len() == 0,
{
    let bytes = c_str_prefix(error_buf);
    decode_lossy(bytes.as_slice())
}

/// The error reported when the engine rejects a module: its diagnostic when
/// it wrote one, the fixed fallback message otherwise.
pub fn compilation_error(error_buf: &[u8]) -> (r: crate::error::RuntimeError)
    ensures
        r is CompilationError,
        r->CompilationError_0@ == failure_message(error_buf@),
        r->CompilationError_0@.len() > 0,
{
    let message = error_buf_to_string(error_buf);
    if message.as_str().is_empty() {
        proof {
            reveal_strlit("load module failed");
        }
        crate::error::RuntimeError::CompilationError("load module failed".to_owned())
    } else {
        crate::error::RuntimeError::CompilationError(message)
    }
}

} // verus!
