use vstd::prelude::*;

verus! {

// A binary module is an eight-byte preamble (magic number and version)
// followed by sections, each a one-byte id, an unsigned LEB128 payload size,
// and that many payload bytes. The loader only needs to know whether a start
// section (id 8) is declared: it refuses to run start functions. Everything
// else about the format is the interpreter's business.

/// The byte at `i` marks further LEB128 bytes to come.
pub open spec fn leb_more(b: Seq<u8>, i: int) -> bool {
    b[i] >= 128
}

/// The seven payload bits of the LEB128 byte at `i`.
pub open spec fn leb_low(b: Seq<u8>, i: int) -> nat {
    (b[i] % 128) as nat
}

/// The unsigned LEB128 number starting at `pos`: its value and the position
/// after its last byte, or nothing when the bytes end before the number does
/// or it runs past the five bytes a 32-bit size may occupy.
pub open spec fn spec_leb128_at(b: Seq<u8>, pos: int) -> Option<(nat, int)> {
    if pos < b.len() && !leb_more(b, pos) {
        Some((leb_low(b, pos), pos + 1))
    } else if pos + 1 < b.len() && !leb_more(b, pos + 1) {
        Some((leb_low(b, pos) + 128 * leb_low(b, pos + 1), pos + 2))
    } else if pos + 2 < b.len() && !leb_more(b, pos + 2) {
        Some(
            (leb_low(b, pos) + 128 * leb_low(b, pos + 1) + 16384 * leb_low(b, pos + 2), pos + 3),
        )
    } else if pos + 3 < b.len() && !leb_more(b, pos + 3) {
        Some(
            (
                leb_low(b, pos) + 128 * leb_low(b, pos + 1) + 16384 * leb_low(b, pos + 2)
                    + 2097152 * leb_low(b, pos + 3),
                pos + 4,
            ),
        )
    } else if pos + 4 < b.len() && !leb_more(b, pos + 4) {
        Some(
            (
                leb_low(b, pos) + 128 * leb_low(b, pos + 1) + 16384 * leb_low(b, pos + 2)
                    + 2097152 * leb_low(b, pos + 3) + 268435456 * leb_low(b, pos + 4),
                pos + 5,
            ),
        )
    } else {
        None
    }
}

/// Reads the unsigned LEB128 number starting at `pos`.
pub fn read_leb128(b: &[u8], pos: usize) -> (r: Option<(u64, usize)>)
    ensures
        r matches Some(p) ==> spec_leb128_at(b@, pos as int) == Some((p.0 as nat, p.1 as int))
            && pos < p.1 <= b@.len(),
        r is None ==> spec_leb128_at(b@, pos as int) is None,
{
    if pos >= b.len() {
        return None;
    }
    let b0 = b[pos];
    if b0 < 128 {
        return Some((b0 as u64, pos + 1));
    }
    if pos + 1 >= b.len() {
        return None;
    }
    let b1 = b[pos + 1];
    if b1 < 128 {
        return Some(((b0 % 128) as u64 + 128 * (b1 as u64), pos + 2));
    }
    if pos + 2 >= b.len() {
        return None;
    }
    let b2 = b[pos + 2];
    if b2 < 128 {
        return Some(
            ((b0 % 128) as u64 + 128 * ((b1 % 128) as u64) + 16384 * (b2 as u64), pos + 3),
        );
    }
    if pos + 3 >= b.len() {
        return None;
    }
    let b3 = b[pos + 3];
    if b3 < 128 {
        return Some(
            (
                (b0 % 128) as u64 + 128 * ((b1 % 128) as u64) + 16384 * ((b2 % 128) as u64)
                    + 2097152 * (b3 as u64),
                pos + 4,
            ),
        );
    }
    if pos + 4 >= b.len() {
        return None;
    }
    let b4 = b[pos + 4];
    if b4 < 128 {
        return Some(
            (
                (b0 % 128) as u64 + 128 * ((b1 % 128) as u64) + 16384 * ((b2 % 128) as u64)
                    + 2097152 * ((b3 % 128) as u64) + 268435456 * (b4 as u64),
                pos + 5,
            ),
        );
    }
    None
}

/// Scanning from `pos`, some well-formed section has id 8.
pub open spec fn spec_scan_for_start(b: Seq<u8>, pos: int) -> bool
    decreases b.len() - pos,
    when 0 <= pos <= b.len()
{
    if pos >= b.len() {
        false
    } else {
        match spec_leb128_at(b, pos + 1) {
            None => false,
            Some(sz) => if b[pos] == 8 {
                true
            } else if sz.1 + sz.0 <= b.len() {
                spec_scan_for_start(b, sz.1 + sz.0)
            } else {
                false
            },
        }
    }
}

/// The byte run declares a start section after the eight-byte preamble.
pub open spec fn spec_has_start_section(b: Seq<u8>) -> bool {
    b.len() >= 8 && spec_scan_for_start(b, 8)
}

/// Scans the module's section list for a start section. A byte run that is
/// not a well-formed module reports false: the interpreter rejects it when
/// parsing, so nothing rests on the answer there.
pub fn has_start_section(bytes: &[u8]) -> (r: bool)
    ensures
        r == spec_has_start_section(bytes@),
{
    let n = bytes.len();
    if n < 8 {
        return false;
    }
    let mut pos: usize = 8;
    while pos < n
        invariant
            n == bytes@.len(),
            8 <= n,
            pos <= n,
            spec_has_start_section(bytes@) == spec_scan_for_start(bytes@, pos as int),
        decreases n - pos,
    {
        let id = bytes[pos];
        match read_leb128(bytes, pos + 1) {
            None => {
                return false;
            },
            Some((size, after)) => {
                if id == 8 {
                    return true;
                }
                if size <= (n - after) as u64 {
                    pos = after + (size as usize);
                } else {
                    return false;
                }
            },
        }
    }
    false
}

} // verus!
