//! The boundary between text and null-terminated byte sequences.
//!
//! The host library takes and hands out byte sequences whose end is marked by
//! a zero byte. Text that goes out must therefore hold no zero byte of its
//! own, and bytes that come in end at the first zero byte.

use vstd::prelude::*;
use vstd::slice::{slice_subrange, slice_to_vec};
use vstd::utf8::{encode_scalar, encode_utf8};

verus! {

/// The position of the first zero byte of `bytes`, where it holds one.
pub open spec fn nul_position(bytes: Seq<u8>) -> Option<int> {
    bytes.index_of_first(0u8)
}

/// The null-terminated form of `bytes`: the same bytes, then the terminator.
pub open spec fn terminated(bytes: Seq<u8>) -> Seq<u8> {
    bytes.push(0u8)
}

/// Whether `bytes` is a null-terminated byte sequence: its last byte is zero
/// and no byte before it is.
pub open spec fn nul_terminated(bytes: Seq<u8>) -> bool {
    bytes.len() > 0 && nul_position(bytes) == Some(bytes.len() - 1)
}

/// The token that `buffer` holds: its bytes before the first zero byte, or
/// all of them where none is zero.
pub open spec fn token(buffer: Seq<u8>) -> Seq<u8> {
    match nul_position(buffer) {
        Some(end) => buffer.take(end),
        None => buffer,
    }
}

/// A zero byte at `at` with none before it is the first one.
pub proof fn lemma_first_nul(bytes: Seq<u8>, at: int)
    requires
        0 <= at < bytes.len(),
        bytes[at] == 0,
        forall|j: int| 0 <= j < at ==> bytes[j] != 0,
    ensures
        nul_position(bytes) == Some(at),
{
    bytes.index_of_first_ensures(0u8);
    assert(bytes.contains(0u8));
}

/// A sequence without a zero byte has no first one.
pub proof fn lemma_no_nul(bytes: Seq<u8>)
    requires
        forall|j: int| 0 <= j < bytes.len() ==> bytes[j] != 0,
    ensures
        nul_position(bytes) is None,
{
    bytes.index_of_first_ensures(0u8);
}

/// What `nul_position` means: `Some(at)` marks a zero byte that no zero byte
/// precedes, `None` says that no byte is zero.
pub proof fn lemma_nul_position(bytes: Seq<u8>)
    ensures
        match nul_position(bytes) {
            Some(at) => {
                &&& 0 <= at < bytes.len()
                &&& bytes[at] == 0
                &&& forall|j: int| 0 <= j < at ==> bytes[j] != 0
            },
            None => forall|j: int| 0 <= j < bytes.len() ==> bytes[j] != 0,
        },
{
    bytes.index_of_first_ensures(0u8);
    if nul_position(bytes) is None {
        assert forall|j: int| 0 <= j < bytes.len() implies bytes[j] != 0 by {
            if bytes[j] == 0 {
                assert(bytes.contains(0u8));
            }
        }
    }
}

/// Terminating a sequence that holds no zero byte gives a null-terminated
/// sequence, and the token of that sequence is the one it was made from.
pub proof fn lemma_token_of_terminated(bytes: Seq<u8>)
    requires
        nul_position(bytes) is None,
    ensures
        nul_terminated(terminated(bytes)),
        token(terminated(bytes)) == bytes,
{
    lemma_nul_position(bytes);
    lemma_first_nul(terminated(bytes), bytes.len() as int);
    assert(terminated(bytes).take(bytes.len() as int) =~= bytes);
}

/// The UTF-8 form of a single character holds a zero byte only where the
/// character is U+0000, whose form is that one byte.
proof fn lemma_nul_in_scalar(c: char)
    ensures
        c == '\0' ==> encode_scalar(c as u32) == seq![0u8],
        c != '\0' ==> !encode_scalar(c as u32).contains(0u8),
{
    let s = c as u32;
    assert(s <= 0x7F ==> ((s & 0x7F) as u8 == 0 <==> s == 0)) by (bit_vector);
    assert((0xC0u8 | ((s >> 6) & 0x1F) as u8) != 0) by (bit_vector);
    assert((0xE0u8 | ((s >> 12) & 0x0F) as u8) != 0) by (bit_vector);
    assert((0xF0u8 | ((s >> 18) & 0x7) as u8) != 0) by (bit_vector);
    assert((0x80u8 | (s & 0x3F) as u8) != 0) by (bit_vector);
    assert((0x80u8 | ((s >> 6) & 0x3F) as u8) != 0) by (bit_vector);
    assert((0x80u8 | ((s >> 12) & 0x3F) as u8) != 0) by (bit_vector);
    if c == '\0' {
        assert(s == 0);
        assert(encode_scalar(s) =~= seq![0u8]);
    } else {
        assert(s != 0);
        let bytes = encode_scalar(s);
        assert forall|i: int| 0 <= i < bytes.len() implies bytes[i] != 0u8 by {}
    }
}

/// A text has a zero byte in its UTF-8 form exactly where it holds the
/// character U+0000: no other character is encoded with a zero byte.
pub proof fn lemma_nul_byte_iff_nul_char(text: Seq<char>)
    ensures
        nul_position(encode_utf8(text)) is Some <==> text.contains('\0'),
    decreases text.len(),
{
    let bytes = encode_utf8(text);
    lemma_nul_position(bytes);
    if text.len() == 0 {
        assert(bytes.len() == 0);
    } else {
        let head = encode_scalar(text[0] as u32);
        let rest = text.drop_first();
        let tail = encode_utf8(rest);
        assert(bytes == head + tail);
        lemma_nul_in_scalar(text[0]);
        lemma_nul_byte_iff_nul_char(rest);
        lemma_nul_position(tail);
        if text.contains('\0') {
            let k = choose|k: int| 0 <= k < text.len() && text[k] == '\0';
            if k == 0 {
                assert(bytes[0] == 0u8);
            } else {
                assert(rest[k - 1] == '\0');
                assert(rest.contains('\0'));
                let at = nul_position(tail)->0;
                assert(bytes[head.len() + at] == tail[at]);
            }
            assert(nul_position(bytes) is Some);
        }
        if nul_position(bytes) is Some {
            let at = nul_position(bytes)->0;
            if at < head.len() {
                assert(head[at] == 0u8);
                assert(head.contains(0u8));
                assert(text[0] == '\0');
            } else {
                assert(tail[at - head.len()] == 0u8);
                assert(nul_position(tail) is Some);
                let k = choose|k: int| 0 <= k < rest.len() && rest[k] == '\0';
                assert(text[k + 1] == '\0');
            }
            assert(text.contains('\0'));
        }
    }
}

/// Finds the first zero byte of `bytes`.
pub fn find_nul(bytes: &[u8]) -> (found: Option<usize>)
    ensures
        match found {
            Some(at) => at < bytes@.len() && nul_position(bytes@) == Some(at as int),
            None => nul_position(bytes@) is None,
        },
{
    let n: usize = bytes.len();
    let mut i: usize = 0;
    while i < n
        invariant
            n == bytes@.len(),
            i <= n,
            forall|j: int| 0 <= j < i ==> bytes@[j] != 0,
        decreases n - i,
    {
        if bytes[i] == 0 {
            proof {
                lemma_first_nul(bytes@, i as int);
            }
            return Some(i);
        }
        i += 1;
    }
    proof {
        lemma_no_nul(bytes@);
    }
    None
}

/// Why a path could not be made into a null-terminated byte sequence: it
/// holds a zero byte of its own.
#[derive(Debug)]
pub struct PathEncodingError {
    /// Where the first zero byte stands among the path's bytes.
    pub position: usize,
    /// The bytes of the path that was refused.
    pub bytes: Vec<u8>,
}

/// Makes `path` into the null-terminated byte sequence that the host library
/// takes: the bytes of its UTF-8 form, then one zero byte.
///
/// A path that holds a zero byte cannot be told from a shorter one once it is
/// terminated, so it is refused, with the place of its first zero byte. That
/// happens exactly to the paths that hold the character U+0000.
pub fn encode_path(path: &str) -> (encoded: Result<Vec<u8>, PathEncodingError>)
    ensures
        match nul_position(encode_utf8(path@)) {
            None => encoded matches Ok(bytes) && bytes@ == terminated(encode_utf8(path@)),
            Some(at) => encoded matches Err(error) && error.position == at && error.bytes@
                == encode_utf8(path@),
        },
        encoded is Err <==> path@.contains('\0'),
{
    proof {
        lemma_nul_byte_iff_nul_char(path@);
    }
    let bytes = path.as_bytes();
    let mut owned = slice_to_vec(bytes);
    match find_nul(bytes) {
        Some(position) => Err(PathEncodingError { position, bytes: owned }),
        None => {
            owned.push(0u8);
            Ok(owned)
        },
    }
}

/// Reads the token out of a buffer that the host library filled: the bytes
/// before the terminator. A buffer without a terminator is a token as a
/// whole.
pub fn read_token(buffer: &[u8]) -> (found: &[u8])
    ensures
        found@ == token(buffer@),
{
    match find_nul(buffer) {
        Some(end) => slice_subrange(buffer, 0, end),
        None => buffer,
    }
}

} // verus!
