use vstd::prelude::*;

use crate::error::HostError;

verus! {

// ---------------------------------------------------------------------------
// Fixed-width integer codec: 32-bit values travel as four little-endian
// bytes, symmetric in both directions.
// ---------------------------------------------------------------------------

/// Encodes a 32-bit integer as its four-byte little-endian representation.
pub fn encode_i32(x: i32) -> (r: Vec<u8>)
    ensures
        r@ == vstd::bytes::spec_u32_to_le_bytes(x as u32),
        r@.len() == 4,
{
    vstd::bytes::u32_to_le_bytes(x as u32)
}

/// Decodes the 32-bit integer held by four little-endian bytes.
pub fn decode_i32(s: &[u8]) -> (r: i32)
    requires
        s@.len() == 4,
    ensures
        r == vstd::bytes::spec_u32_from_le_bytes(s@) as i32,
{
    #[verifier::truncate]
    (vstd::bytes::u32_from_le_bytes(s) as i32)
}

/// The integer codec is symmetric: decoding an encoded value gives the value
/// back, and encoding a decoded four-byte run gives the bytes back.
pub proof fn lemma_i32_codec_round_trip(x: i32, s: Seq<u8>)
    requires
        s.len() == 4,
    ensures
        vstd::bytes::spec_u32_from_le_bytes(vstd::bytes::spec_u32_to_le_bytes(x as u32)) as i32
            == x,
        vstd::bytes::spec_u32_to_le_bytes(
            (vstd::bytes::spec_u32_from_le_bytes(s) as i32) as u32,
        ) == s,
{
    vstd::bytes::lemma_auto_spec_u32_to_from_le_bytes();
    assert(vstd::bytes::spec_u32_to_le_bytes(x as u32).len() == 4);
    assert(x as u32 as i32 == x) by (bit_vector);
    let y = vstd::bytes::spec_u32_from_le_bytes(s);
    assert(y as i32 as u32 == y) by (bit_vector);
}

// ---------------------------------------------------------------------------
// String codec: a marshaled string is the run of bytes before the first zero
// byte, leniently interpreted as text.
// ---------------------------------------------------------------------------

/// The first index in `s` holding a zero byte, or `s.len()` when none does.
pub open spec fn nul_index(s: Seq<u8>) -> int
    decreases s.len(),
{
    if s.len() == 0 {
        0
    } else if s[0] == 0 {
        0
    } else {
        1 + nul_index(s.subrange(1, s.len() as int))
    }
}

pub proof fn lemma_nul_index(s: Seq<u8>)
    ensures
        0 <= nul_index(s) <= s.len(),
        nul_index(s) < s.len() ==> s[nul_index(s)] == 0,
        forall|j: int| 0 <= j < nul_index(s) ==> s[j] != 0,
    decreases s.len(),
{
    if s.len() == 0 {
    } else if s[0] == 0 {
    } else {
        let t = s.subrange(1, s.len() as int);
        lemma_nul_index(t);
        assert forall|j: int| 0 <= j < nul_index(s) implies s[j] != 0 by {
            if j > 0 {
                assert(t[j - 1] != 0);
                assert(s[j] == t[j - 1]);
            }
        }
    }
}

/// The position of the first zero byte determines `nul_index` uniquely.
pub proof fn lemma_nul_index_unique(s: Seq<u8>, k: int)
    requires
        0 <= k <= s.len(),
        forall|j: int| 0 <= j < k ==> s[j] != 0,
        k < s.len() ==> s[k] == 0,
    ensures
        nul_index(s) == k,
{
    lemma_nul_index(s);
    if nul_index(s) < k {
        assert(s[nul_index(s)] != 0);
    }
    if nul_index(s) > k {
        assert(s[k] != 0);
    }
}

/// The run of bytes before the first zero byte.
pub open spec fn pre_nul(b: Seq<u8>) -> Seq<u8> {
    b.take(nul_index(b))
}

/// Every byte is an ASCII code.
pub open spec fn all_ascii(b: Seq<u8>) -> bool {
    forall|i: int| 0 <= i < b.len() ==> b[i] < 128
}

/// Each byte read as the character with the same code value.
pub open spec fn ascii_chars_of(b: Seq<u8>) -> Seq<char> {
    b.map_values(|x: u8| x as char)
}

/// An ASCII byte run is valid UTF-8 and decodes to the characters with the
/// same code values.
pub proof fn lemma_ascii_decode(b: Seq<u8>)
    requires
        all_ascii(b),
    ensures
        vstd::utf8::valid_utf8(b),
        vstd::utf8::decode_utf8(b) == ascii_chars_of(b),
{
    let cs = ascii_chars_of(b);
    assert forall|i: int| 0 <= i < cs.len() implies '\0' <= #[trigger] cs[i] <= '\u{7f}' by {
        let x = b[i];
        assert(cs[i] == x as char);
        assert('\0' <= (x as char) <= '\u{7f}');
    }
    assert(vstd::utf8::is_ascii_chars(cs));
    vstd::utf8::is_ascii_chars_encode_utf8(cs);
    assert forall|i: int| 0 <= i < cs.len() implies vstd::utf8::encode_utf8(cs)[i] == b[i] by {
        let x = b[i];
        assert((x as char) as u8 == x);
    }
    assert(vstd::utf8::encode_utf8(cs) =~= b);
    vstd::utf8::encode_utf8_valid_utf8(cs);
    vstd::utf8::encode_utf8_decode_utf8(cs);
}

/// What the lenient text decoding of a byte run yields. The decoding is a
/// function of the bytes alone; see `utf8_lossy` for what is known of it.
pub uninterp spec fn lossy_utf8(b: Seq<u8>) -> Seq<char>;

/// Relies on String::from_utf8_lossy: the result depends on the bytes alone;
/// invalid sequences are replaced, so decoding never fails; a valid UTF-8 run
/// is returned unchanged; no byte run decodes to more characters than it has
/// bytes; and since only the byte 0 encodes U+0000 and the replacement
/// character is not U+0000, a NUL-free byte run decodes to a NUL-free string.
#[verifier::external_body]
pub(crate) fn utf8_lossy(b: &[u8]) -> (r: String)
    ensures
        r@ == lossy_utf8(b@),
        r@.len() <= b@.len(),
        vstd::utf8::valid_utf8(b@) ==> r@ == vstd::utf8::decode_utf8(b@),
        (forall|i: int| 0 <= i < b@.len() ==> b@[i] != 0) ==> (forall|i: int|
            0 <= i < r@.len() ==> r@[i] != '\0'),
{
    String::from_utf8_lossy(b).into_owned()
}

/// An owned host string decoded from guest linear memory.
#[derive(Debug)]
pub struct WasmString(pub String);

impl WasmString {
    /// What decoding a byte buffer yields: the bytes before the first zero
    /// byte (or the whole buffer when it holds none), leniently read as text.
    pub open spec fn decode_spec(buffer: Seq<u8>) -> Seq<char> {
        lossy_utf8(pre_nul(buffer))
    }

    /// Decodes the run of bytes before the first zero byte into an owned
    /// string. Malformed text is replaced, never escalated: this always
    /// succeeds, and the decoded string holds no NUL character.
    pub fn from_little_endian(buffer: &[u8]) -> (r: Result<WasmString, HostError>)
        ensures
            r matches Ok(w) && w.0@ == Self::decode_spec(buffer@),
            vstd::utf8::valid_utf8(pre_nul(buffer@)) ==> (r matches Ok(w) && w.0@
                == vstd::utf8::decode_utf8(pre_nul(buffer@))),
            r matches Ok(w) && (forall|i: int| 0 <= i < w.0@.len() ==> w.0@[i] != '\0'),
    {
        let n = buffer.len();
        let mut chunk: Vec<u8> = Vec::new();
        let mut i: usize = 0;
        while i < n && buffer[i] != 0
            invariant
                n == buffer@.len(),
                i <= n,
                forall|j: int| 0 <= j < i ==> buffer@[j] != 0,
                chunk@ == buffer@.take(i as int),
            decreases n - i,
        {
            chunk.push(buffer[i]);
            i = i + 1;
        }
        proof {
            lemma_nul_index_unique(buffer@, i as int);
            assert(forall|j: int| 0 <= j < chunk@.len() ==> chunk@[j] != 0);
        }
        let s = utf8_lossy(chunk.as_slice());
        Ok(WasmString(s))
    }

    /// Host-to-guest string encoding is intentionally unsupported: no call
    /// path requires it, and invoking it signals a distinct error.
    pub fn into_little_endian(self, buffer: &mut Vec<u8>) -> (r: Result<(), HostError>)
        ensures
            r matches Err(e) && e matches HostError::EncodeUnsupported,
            final(buffer)@ == old(buffer)@,
    {
        Err(HostError::EncodeUnsupported)
    }
}

} // verus!
