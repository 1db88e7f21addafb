use vstd::prelude::*;
use vstd::string::{StrSliceExecFns, StringSliceAdditionalSpecFns};
use vstd::utf8::{decode_utf8, encode_scalar, encode_utf8, valid_utf8};

use crate::error::RtMidiError;

verus! {

/// True when no byte of `bytes` is a null.
pub open spec fn nul_free(bytes: Seq<u8>) -> bool {
    forall|j: int| 0 <= j < bytes.len() ==> bytes[j] != 0
}

/// Index of the first null byte of `bytes`, or `bytes.len()` when there is
/// none: the length of the C string that `bytes` begins with.
pub open spec fn cstr_len(bytes: Seq<u8>) -> int
    decreases bytes.len(),
{
    if bytes.len() == 0 {
        0
    } else if bytes[0] == 0 {
        0
    } else {
        1 + cstr_len(bytes.drop_first())
    }
}

/// The bytes of the C string that `bytes` begins with: everything before the
/// first null terminator.
pub open spec fn cstr_content(bytes: Seq<u8>) -> Seq<u8> {
    bytes.take(cstr_len(bytes))
}

/// How a null-terminated native buffer must be read back: no terminator is a
/// protocol violation, bytes that are not valid text are a decoding failure,
/// and otherwise the decoded characters come back exactly.
pub open spec fn decoded_cstring(bytes: Seq<u8>, r: Result<String, RtMidiError>) -> bool {
    if cstr_len(bytes) == bytes.len() {
        r == Err::<String, RtMidiError>(RtMidiError::MarshallingError)
    } else if !valid_utf8(cstr_content(bytes)) {
        r == Err::<String, RtMidiError>(RtMidiError::DecodingError)
    } else {
        r matches Ok(s) && s@ == decode_utf8(cstr_content(bytes))
    }
}

/// Relies on `String::from_utf8`: it succeeds exactly on input that is valid
/// UTF-8 and returns the string whose characters the input encodes.
#[verifier::external_body]
pub(crate) fn utf8_to_string(bytes: &Vec<u8>) -> (r: Option<String>)
    ensures
        r is Some <==> valid_utf8(bytes@),
        r matches Some(s) ==> s@ == decode_utf8(bytes@),
{
    String::from_utf8(bytes.clone()).ok()
}

/// `cstr_len` is pinned down by any index `i` before which no null occurs and
/// at which either the buffer ends or a null stands.
proof fn lemma_cstr_len_characterization(bytes: Seq<u8>, i: int)
    requires
        0 <= i <= bytes.len(),
        forall|j: int| 0 <= j < i ==> bytes[j] != 0,
        i == bytes.len() || bytes[i] == 0,
    ensures
        cstr_len(bytes) == i,
    decreases i,
{
    if i > 0 {
        lemma_cstr_len_characterization(bytes.drop_first(), i - 1);
    }
}

/// Appending a null terminator to a null-free payload gives a buffer whose C
/// string is exactly that payload.
pub proof fn lemma_cstr_terminated(payload: Seq<u8>)
    requires
        nul_free(payload),
    ensures
        cstr_len(payload.push(0u8)) == payload.len(),
        cstr_content(payload.push(0u8)) == payload,
{
    let bytes = payload.push(0u8);
    lemma_cstr_len_characterization(bytes, payload.len() as int);
    assert(cstr_content(bytes) =~= payload);
}

/// The one-byte encoding of the null character, and the absence of null bytes
/// from the encoding of every other character.
proof fn lemma_encode_scalar_nul(c: char)
    ensures
        c == '\0' ==> encode_scalar(c as u32) == seq![0u8],
        c != '\0' ==> nul_free(encode_scalar(c as u32)),
{
    broadcast use vstd::utf8::char_is_scalar;

    let s = c as u32;
    assert(('\0' as u32) == 0);
    if vstd::utf8::has_width_1_encoding(s) {
        assert(s < 0x80 ==> (((s & 0x7F) as u8) == 0 <==> s == 0)) by (bit_vector);
        if c == '\0' {
            assert(encode_scalar(s) =~= seq![0u8]);
        } else {
            assert(c as u32 != 0) by {
                vstd::utf8::char_u32_cast(c, s);
            }
        }
    } else if vstd::utf8::has_width_2_encoding(s) {
        assert((0xC0u8 | ((s >> 6) & 0x1F) as u8) != 0) by (bit_vector);
        assert((0x80u8 | (s & 0x3F) as u8) != 0) by (bit_vector);
    } else if vstd::utf8::has_width_3_encoding(s) {
        assert((0xE0u8 | ((s >> 12) & 0x0F) as u8) != 0) by (bit_vector);
        assert((0x80u8 | ((s >> 6) & 0x3F) as u8) != 0) by (bit_vector);
        assert((0x80u8 | (s & 0x3F) as u8) != 0) by (bit_vector);
    } else {
        assert((0xF0u8 | ((s >> 18) & 0x7) as u8) != 0) by (bit_vector);
        assert((0x80u8 | ((s >> 12) & 0x3F) as u8) != 0) by (bit_vector);
        assert((0x80u8 | ((s >> 6) & 0x3F) as u8) != 0) by (bit_vector);
        assert((0x80u8 | (s & 0x3F) as u8) != 0) by (bit_vector);
    }
}

/// A UTF-8 encoding holds a null byte exactly when the encoded characters
/// hold the null character.
pub proof fn lemma_encode_utf8_nul(chars: Seq<char>)
    ensures
        nul_free(encode_utf8(chars)) <==> !chars.contains('\0'),
    decreases chars.len(),
{
    if chars.len() == 0 {
    } else {
        let head = encode_scalar(chars[0] as u32);
        let tail = encode_utf8(chars.drop_first());
        lemma_encode_scalar_nul(chars[0]);
        lemma_encode_utf8_nul(chars.drop_first());
        assert(encode_utf8(chars) == head + tail);
        if chars.contains('\0') {
            let i = choose|i: int| 0 <= i < chars.len() && chars[i] == '\0';
            if i == 0 {
                assert((head + tail)[0] == 0);
            } else {
                assert(chars.drop_first()[i - 1] == '\0');
                assert(chars.drop_first().contains('\0'));
                let j = choose|j: int| 0 <= j < tail.len() && tail[j] == 0;
                assert((head + tail)[head.len() + j] == 0);
            }
            assert(!nul_free(encode_utf8(chars)));
        } else {
            assert(chars[0] != '\0');
            assert(!chars.drop_first().contains('\0')) by {
                if chars.drop_first().contains('\0') {
                    let i = choose|i: int|
                        0 <= i < chars.drop_first().len() && chars.drop_first()[i] == '\0';
                    assert(chars[i + 1] == '\0');
                }
            }
            assert forall|j: int| 0 <= j < (head + tail).len() implies (head + tail)[j] != 0 by {
                if j < head.len() {
                    assert((head + tail)[j] == head[j]);
                } else {
                    assert((head + tail)[j] == tail[j - head.len()]);
                }
            }
        }
    }
}

/// Encode-then-decode round-trips: for any string without an embedded null,
/// the buffer [`encode_string`] produces (the string's UTF-8 bytes plus a
/// terminator), read back as [`decode_cstring`]'s contract demands, yields
/// the original characters.  (A string with an embedded null never reaches
/// this point: [`encode_string`] rejects it.)
pub proof fn lemma_encode_decode_round_trip(chars: Seq<char>, r: Result<String, RtMidiError>)
    requires
        !chars.contains('\0'),
        decoded_cstring(encode_utf8(chars).push(0u8), r),
    ensures
        r matches Ok(s) && s@ == chars,
{
    broadcast use vstd::utf8::encode_utf8_valid_utf8;
    broadcast use vstd::utf8::encode_utf8_decode_utf8;

    lemma_encode_utf8_nul(chars);
    lemma_cstr_terminated(encode_utf8(chars));
}

/// Locate the first null byte of a buffer.
fn find_nul(buffer: &Vec<u8>) -> (r: Option<usize>)
    ensures
        r matches Some(i) ==> i < buffer@.len() && buffer@[i as int] == 0 && forall|j: int|
            0 <= j < i ==> buffer@[j] != 0,
        r is None ==> nul_free(buffer@),
{
    let n = buffer.len();
    let mut i: usize = 0;
    while i < n
        invariant
            i <= n,
            n == buffer@.len(),
            forall|j: int| 0 <= j < i ==> buffer@[j] != 0,
        decreases n - i,
    {
        if buffer[i] == 0 {
            return Some(i);
        }
        i += 1;
    }
    None
}

/// Convert a host string into the null-terminated byte buffer that the native
/// layer consumes.  A string holding an embedded null cannot be represented
/// as a C string and is rejected.
pub fn encode_string(s: &str) -> (r: Result<Vec<u8>, RtMidiError>)
    ensures
        s@.contains('\0') ==> r == Err::<Vec<u8>, RtMidiError>(RtMidiError::EncodingError),
        !s@.contains('\0') ==> (r matches Ok(v) && v@ == s.spec_bytes().push(0u8)),
{
    let mut bytes = s.as_bytes_vec();
    proof {
        lemma_encode_utf8_nul(s@);
    }
    match find_nul(&bytes) {
        Some(_) => Err(RtMidiError::EncodingError),
        None => {
            bytes.push(0);
            Ok(bytes)
        },
    }
}

/// Read a null-terminated native buffer back into a host string, as
/// [`decoded_cstring`] demands.
pub fn decode_cstring(buffer: Vec<u8>) -> (r: Result<String, RtMidiError>)
    ensures
        decoded_cstring(buffer@, r),
{
    let ghost original = buffer@;
    match find_nul(&buffer) {
        None => {
            proof {
                lemma_cstr_len_characterization(original, original.len() as int);
            }
            Err(RtMidiError::MarshallingError)
        },
        Some(i) => {
            proof {
                lemma_cstr_len_characterization(original, i as int);
            }
            let mut prefix = buffer;
            prefix.truncate(i);
            proof {
                assert(prefix@ =~= cstr_content(original));
            }
            match utf8_to_string(&prefix) {
                Some(s) => Ok(s),
                None => Err(RtMidiError::DecodingError),
            }
        },
    }
}

/// First phase of the two-phase protocol: interpret the native length query.
/// A failing query means the port reference was not valid; a non-positive
/// reported length is an inconsistency of the protocol itself.
pub fn required_length(query_res: i32, reported_len: i32) -> (r: Result<usize, RtMidiError>)
    ensures
        query_res != 0 ==> r == Err::<usize, RtMidiError>(RtMidiError::InvalidPort),
        query_res == 0 && reported_len <= 0 ==> r == Err::<usize, RtMidiError>(
            RtMidiError::MarshallingError,
        ),
        query_res == 0 && reported_len > 0 ==> r == Ok::<usize, RtMidiError>(
            reported_len as usize,
        ),
{
    if query_res != 0 {
        Err(RtMidiError::InvalidPort)
    } else if reported_len <= 0 {
        Err(RtMidiError::MarshallingError)
    } else {
        Ok(reported_len as usize)
    }
}

/// Second phase of the two-phase protocol: the native fill call must report
/// exactly the allocated length minus the null terminator; any other count is
/// an inconsistency, never a silent success.
pub fn finish_port_name(written: i32, buffer: Vec<u8>) -> (r: Result<String, RtMidiError>)
    ensures
        !(written >= 0 && written + 1 == buffer@.len()) ==> r == Err::<String, RtMidiError>(
            RtMidiError::MarshallingError,
        ),
        written >= 0 && written + 1 == buffer@.len() ==> decoded_cstring(buffer@, r),
{
    if written < 0 || buffer.len() == 0 || (written as usize) != buffer.len() - 1 {
        Err(RtMidiError::MarshallingError)
    } else {
        decode_cstring(buffer)
    }
}

} // verus!
