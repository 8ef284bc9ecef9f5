use vstd::prelude::*;

use crate::codec::{all_ascii, lemma_ascii_decode, lemma_nul_index_unique, lossy_utf8, pre_nul,
    WasmString};
use crate::error::{HostError, HostFault};
use crate::memory::{splice_bytes, LinearMemory};
use crate::registry::{dispatch_multiply, dispatch_state_add, Runtime};

verus! {

// Host-side models of the functions the demonstration module exports. They
// state, over plain values and the linear-memory view, exactly what each
// export computes at the boundary.

/// The pure addition export: returns `a + b` with native 32-bit wraparound.
pub fn add(a: i32, b: i32) -> (r: i32)
    ensures
        r == a.wrapping_add(b),
        i32::MIN <= a + b <= i32::MAX ==> r == a + b,
{
    a.wrapping_add(b)
}

/// The byte length of the lenient text decoding of `b`.
pub open spec fn lossy_byte_len(b: Seq<u8>) -> nat {
    vstd::utf8::encode_utf8(lossy_utf8(b)).len()
}

/// The length-counting export, modeled on a bounds-checked view of linear
/// memory: reads the `len` bytes at `ptr`, leniently decodes them as text,
/// and returns the decoded string's byte length. For valid text this is
/// exactly `len`; for invalid text it is whatever the lenient decoding
/// yields, never an error.
pub fn count_str(mem: &LinearMemory, ptr: u32, len: u32) -> (r: Result<usize, HostError>)
    ensures
        ptr + len <= mem@.len() ==> (r matches Ok(n) && n == lossy_byte_len(
            mem@.subrange(ptr as int, ptr + len),
        ) as usize && (vstd::utf8::valid_utf8(mem@.subrange(ptr as int, ptr + len)) ==> n == len)),
        ptr + len > mem@.len() ==> (r matches Err(e) && e matches HostError::OutOfBounds),
    {
    match mem.get_range(ptr, len as usize) {
        Ok(v) => {
            let s = crate::codec::utf8_lossy(v.as_slice());
            let n = s.as_str().len();
            proof {
                let range = mem@.subrange(ptr as int, ptr + len);
                if vstd::utf8::valid_utf8(range) {
                    vstd::utf8::decode_utf8_encode_utf8(range);
                }
            }
            Ok(n)
        },
        Err(e) => Err(e),
    }
}

/// Where the string-returning export places its message in linear memory.
pub const RETURN_STR_PTR: u32 = 1024;

/// The bytes of the fixed message, ASCII for "hello from webassembly".
pub open spec fn hello_bytes() -> Seq<u8> {
    seq![
        104u8, 101u8, 108u8, 108u8, 111u8, 32u8, 102u8, 114u8, 111u8, 109u8, 32u8, 119u8, 101u8,
        98u8, 97u8, 115u8, 115u8, 101u8, 109u8, 98u8, 108u8, 121u8,
    ]
}

/// `m` holds the fixed message as a null-terminated string at `ptr`.
pub open spec fn has_hello_at(m: Seq<u8>, ptr: int) -> bool {
    &&& 0 <= ptr
    &&& ptr + 23 <= m.len()
    &&& m.subrange(ptr, ptr + 22) == hello_bytes()
    &&& m[ptr + 22] == 0
}

/// The string-returning export: writes the fixed message into linear memory
/// as a null-terminated string and returns its offset. The computation is
/// pure: every successful invocation leaves the same bytes at the same
/// offset.
pub fn return_str(mem: &mut LinearMemory) -> (r: Result<u32, HostError>)
    ensures
        RETURN_STR_PTR + 23 <= old(mem)@.len() ==> r == Ok::<u32, HostError>(RETURN_STR_PTR)
            && final(mem)@ == splice_bytes(
            old(mem)@,
            RETURN_STR_PTR as int,
            hello_bytes() + seq![0u8],
        ) && has_hello_at(final(mem)@, RETURN_STR_PTR as int),
        RETURN_STR_PTR + 23 > old(mem)@.len() ==> (r matches Err(e) && e matches
            HostError::OutOfBounds) && final(mem)@ == old(mem)@,
{
    let mut msg: Vec<u8> = Vec::new();
    msg.push(104u8);
    msg.push(101u8);
    msg.push(108u8);
    msg.push(108u8);
    msg.push(111u8);
    msg.push(32u8);
    msg.push(102u8);
    msg.push(114u8);
    msg.push(111u8);
    msg.push(109u8);
    msg.push(32u8);
    msg.push(119u8);
    msg.push(101u8);
    msg.push(98u8);
    msg.push(97u8);
    msg.push(115u8);
    msg.push(115u8);
    msg.push(101u8);
    msg.push(109u8);
    msg.push(98u8);
    msg.push(108u8);
    msg.push(121u8);
    msg.push(0u8);
    proof {
        assert(msg@ =~= hello_bytes() + seq![0u8]);
    }
    match mem.set(RETURN_STR_PTR, msg.as_slice()) {
        Ok(()) => {
            proof {
                let m2 = final(mem)@;
                assert(m2.subrange(RETURN_STR_PTR as int, RETURN_STR_PTR + 22) =~= hello_bytes());
            }
            Ok(RETURN_STR_PTR)
        },
        Err(e) => Err(e),
    }
}

/// Reads back what the string-returning export placed at its returned
/// offset: the decoded text is exactly the fixed message.
pub fn read_returned_str(mem: &LinearMemory, ptr: u32) -> (r: Result<WasmString, HostError>)
    requires
        has_hello_at(mem@, ptr as int),
    ensures
        r matches Ok(w) && w.0@ == "hello from webassembly"@,
{
    proof {
        lemma_hello_decode(mem@, ptr as int);
    }
    match mem.get_value_str(ptr) {
        Ok(w) => Ok(w),
        Err(e) => {
            proof {
                assert(false);
            }
            Err(e)
        },
    }
}

/// Decoding memory that holds the fixed message yields exactly the literal
/// message text.
pub proof fn lemma_hello_decode(m: Seq<u8>, ptr: int)
    requires
        has_hello_at(m, ptr),
    ensures
        pre_nul(m.skip(ptr)) == hello_bytes(),
        vstd::utf8::valid_utf8(hello_bytes()),
        vstd::utf8::decode_utf8(hello_bytes()) == "hello from webassembly"@,
{
    let t = m.skip(ptr);
    assert forall|j: int| 0 <= j < 22 implies t[j] != 0 by {
        assert(t[j] == m.subrange(ptr, ptr + 22)[j]);
    }
    assert(t[22] == 0);
    lemma_nul_index_unique(t, 22);
    assert(pre_nul(t) =~= hello_bytes());
    assert(all_ascii(hello_bytes()));
    lemma_ascii_decode(hello_bytes());
    reveal_strlit("hello from webassembly");
    assert(crate::codec::ascii_chars_of(hello_bytes()) =~= "hello from webassembly"@);
}

/// Two successful invocations of the string-returning export are
/// indistinguishable: decoding memory at the returned offset yields the
/// identical string both times.
pub proof fn lemma_return_str_idempotent(m1: Seq<u8>, m2: Seq<u8>)
    requires
        has_hello_at(m1, RETURN_STR_PTR as int),
        has_hello_at(m2, RETURN_STR_PTR as int),
    ensures
        WasmString::decode_spec(m1.skip(RETURN_STR_PTR as int)) == WasmString::decode_spec(
            m2.skip(RETURN_STR_PTR as int),
        ),
{
    lemma_hello_decode(m1, RETURN_STR_PTR as int);
    lemma_hello_decode(m2, RETURN_STR_PTR as int);
}

/// The host-call export: doubles its input and hands both to the host's
/// multiply, so the result is `a * (a + a)` with 32-bit wraparound.
pub fn calc_host(rt: &mut Runtime, a: i32) -> (r: i32)
    ensures
        r == a.wrapping_mul(a.wrapping_add(a)),
        i32::MIN <= a + a <= i32::MAX && i32::MIN <= a * (a + a) <= i32::MAX ==> r == a * (a + a),
        final(rt)@ == old(rt)@,
{
    let b = crate::exports::add(a, a);
    dispatch_multiply(rt, a, b)
}

/// The stateful-mutation export: adds five to the host object registered
/// under `state_ptr`, returning no value; an unregistered handle is a host
/// fault and changes nothing.
pub fn host_state_add(rt: &mut Runtime, state_ptr: i32) -> (r: Result<(), HostFault>)
    ensures
        old(rt)@.contains_key(state_ptr) ==> r == Ok::<(), HostFault>(()) && final(rt)@
            == old(rt)@.insert(state_ptr, old(rt)@[state_ptr].wrapping_add(5)),
        !old(rt)@.contains_key(state_ptr) ==> r == Err::<(), HostFault>(
            HostFault::MissingState(state_ptr),
        ) && final(rt)@ == old(rt)@,
{
    dispatch_state_add(rt, state_ptr, 5)
}

} // verus!
