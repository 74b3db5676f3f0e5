use vstd::prelude::*;
use vstd::string::StringSliceAdditionalSpecFns;
use vstd::utf8::*;

verus! {

/// True when `buf[n]` is the first zero byte of `buf`.
pub open spec fn is_terminator_at(buf: Seq<u8>, n: int) -> bool {
    &&& 0 <= n < buf.len()
    &&& buf[n] == 0
    &&& forall|i: int| 0 <= i < n ==> buf[i] != 0
}

/// True when `buf` holds at least one zero byte.
pub open spec fn is_terminated(buf: Seq<u8>) -> bool {
    exists|n: int| 0 <= n < buf.len() && buf[n] == 0
}

/// Index of the first zero byte of a terminated buffer.
pub open spec fn terminator_index(buf: Seq<u8>) -> int
    recommends
        is_terminated(buf),
{
    choose|n: int| is_terminator_at(buf, n)
}

/// The bytes of a terminated buffer before its first zero byte.
pub open spec fn text_before_terminator(buf: Seq<u8>) -> Seq<u8> {
    buf.subrange(0, terminator_index(buf))
}

/// A terminated buffer has exactly one first zero byte.
pub proof fn lemma_terminator_unique(buf: Seq<u8>, n: int)
    requires
        is_terminator_at(buf, n),
    ensures
        is_terminated(buf),
        terminator_index(buf) == n,
{
    assert(is_terminated(buf));
    let m = terminator_index(buf);
    assert(is_terminator_at(buf, m));
    if m < n {
        assert(buf[m] != 0);
    } else if n < m {
        assert(buf[n] != 0);
    }
}

/// Below any zero byte of `buf` lies a first one.
proof fn lemma_first_zero_below(buf: Seq<u8>, k: int)
    requires
        0 <= k < buf.len(),
        buf[k] == 0,
    ensures
        exists|n: int| 0 <= n <= k && is_terminator_at(buf, n),
    decreases k,
{
    if exists|i: int| 0 <= i < k && buf[i] == 0 {
        let i = choose|i: int| 0 <= i < k && buf[i] == 0;
        lemma_first_zero_below(buf, i);
    } else {
        assert(is_terminator_at(buf, k));
    }
}

/// A terminated buffer has a first zero byte.
pub proof fn lemma_terminator_exists(buf: Seq<u8>)
    requires
        is_terminated(buf),
    ensures
        is_terminator_at(buf, terminator_index(buf)),
{
    let k = choose|k: int| 0 <= k < buf.len() && buf[k] == 0;
    lemma_first_zero_below(buf, k);
}

/// No byte of a scalar's UTF-8 encoding is zero, unless the scalar is.
proof fn lemma_scalar_encoding_nonzero(v: u32)
    requires
        v != 0,
        is_scalar(v),
    ensures
        forall|j: int| 0 <= j < encode_scalar(v).len() ==> encode_scalar(v)[j] != 0,
{
    assert((v & 0x7F) as u8 != 0 || !(v <= 0x7F)) by (bit_vector)
        requires
            v != 0,
    ;
    assert(0xC0u8 | ((v >> 6u32) & 0x1F) as u8 != 0) by (bit_vector);
    assert(0xE0u8 | ((v >> 12u32) & 0x0F) as u8 != 0) by (bit_vector);
    assert(0xF0u8 | ((v >> 18u32) & 0x7) as u8 != 0) by (bit_vector);
    assert(0x80u8 | (v & 0x3F) as u8 != 0) by (bit_vector);
    assert(0x80u8 | ((v >> 6u32) & 0x3F) as u8 != 0) by (bit_vector);
    assert(0x80u8 | ((v >> 12u32) & 0x3F) as u8 != 0) by (bit_vector);
}

/// Text without a NUL character encodes to bytes without a zero byte.
pub proof fn lemma_encoding_nonzero(chars: Seq<char>)
    requires
        forall|i: int| 0 <= i < chars.len() ==> chars[i] != '\0',
    ensures
        forall|j: int| 0 <= j < encode_utf8(chars).len() ==> encode_utf8(chars)[j] != 0,
    decreases chars.len(),
{
    if chars.len() > 0 {
        let v = chars[0] as u32;
        char_is_scalar(chars[0]);
        char_u32_cast(chars[0], v);
        assert(('\0' as u32) == 0u32);
        char_u32_cast('\0', 0u32);
        assert(v != 0);
        lemma_scalar_encoding_nonzero(v);
        lemma_encoding_nonzero(chars.drop_first());
        let head = encode_scalar(v);
        let rest = encode_utf8(chars.drop_first());
        assert(encode_utf8(chars) == head + rest);
        assert forall|j: int| 0 <= j < encode_utf8(chars).len() implies encode_utf8(chars)[j]
            != 0 by {
            if j < head.len() {
                assert(encode_utf8(chars)[j] == head[j]);
            } else {
                assert(encode_utf8(chars)[j] == rest[j - head.len()]);
            }
        }
    }
}

/// Text without a NUL character, written to a buffer and followed by a zero
/// byte and anything at all, reads back as the same text.
pub proof fn lemma_round_trip(chars: Seq<char>, tail: Seq<u8>)
    requires
        forall|i: int| 0 <= i < chars.len() ==> chars[i] != '\0',
    ensures
        is_terminated(encode_utf8(chars) + seq![0u8] + tail),
        text_before_terminator(encode_utf8(chars) + seq![0u8] + tail) == encode_utf8(chars),
        valid_utf8(text_before_terminator(encode_utf8(chars) + seq![0u8] + tail)),
        decode_utf8(text_before_terminator(encode_utf8(chars) + seq![0u8] + tail)) == chars,
{
    let bytes = encode_utf8(chars);
    let buf = bytes + seq![0u8] + tail;
    lemma_encoding_nonzero(chars);
    assert(is_terminator_at(buf, bytes.len() as int));
    lemma_terminator_unique(buf, bytes.len() as int);
    assert(text_before_terminator(buf) =~= bytes);
    encode_utf8_valid_utf8(chars);
    encode_utf8_decode_utf8(chars);
}

/// Why a host buffer could not become owned text.
#[derive(Clone, Copy, Debug, PartialEq, Eq, Structural)]
pub enum ConversionError {
    /// The bytes before the terminator are not valid UTF-8.
    InvalidEncoding,
}

/// Index of the first zero byte of `buf`.
fn find_terminator(buf: &[u8]) -> (n: usize)
    requires
        is_terminated(buf@),
    ensures
        is_terminator_at(buf@, n as int),
        n as int == terminator_index(buf@),
{
    proof {
        lemma_terminator_exists(buf@);
    }
    let ghost t = terminator_index(buf@);
    let mut n: usize = 0;
    while buf[n] != 0
        invariant
            is_terminator_at(buf@, t),
            0 <= n <= t,
            forall|i: int| 0 <= i < n ==> buf@[i] != 0,
        decreases t - n,
    {
        n = n + 1;
    }
    proof {
        lemma_terminator_unique(buf@, n as int);
    }
    n
}

/// Relies on std::str::from_utf8: it succeeds exactly on valid UTF-8, and
/// the string it returns is made of those very bytes.
#[verifier::external_body]
fn decode_utf8_bytes(b: &[u8]) -> (r: Option<&str>)
    ensures
        r is Some <==> valid_utf8(b@),
        r matches Some(s) ==> s.spec_bytes() == b@,
{
    std::str::from_utf8(b).ok()
}

/// Copies the text before the first zero byte of a host buffer into an owned
/// `String`, checking that it is valid UTF-8.
pub fn to_owned_text(buf: &[u8]) -> (r: Result<String, ConversionError>)
    requires
        is_terminated(buf@),
    ensures
        r is Ok <==> valid_utf8(text_before_terminator(buf@)),
        r matches Ok(s) ==> encode_utf8(s@) == text_before_terminator(buf@),
        r matches Ok(s) ==> s@ == decode_utf8(text_before_terminator(buf@)),
        r matches Err(e) ==> e == ConversionError::InvalidEncoding,
{
    let n = find_terminator(buf);
    let text = &buf[0..n];
    assert(text@ == text_before_terminator(buf@));
    match decode_utf8_bytes(text) {
        Some(s) => {
            let owned = s.to_owned();
            proof {
                decode_utf8_encode_utf8(text@);
                encode_utf8_decode_utf8(s@);
            }
            Ok(owned)
        },
        None => Err(ConversionError::InvalidEncoding),
    }
}

} // verus!
