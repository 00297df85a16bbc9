use vstd::prelude::*;

verus! {

/// The byte address a guest pointer names: guest addresses are unsigned 32-bit.
pub open spec fn guest_addr(ptr: i32) -> int {
    (ptr as u32) as int
}

/// Whether `byte_len` bytes from the guest pointer `ptr` lie inside a memory of `mem_len`
/// bytes.
pub open spec fn range_ok(mem_len: int, ptr: i32, byte_len: int) -> bool {
    byte_len >= 0 && guest_addr(ptr) + byte_len <= mem_len
}

/// The byte range of `count` elements of `elem_bytes` bytes each at the guest pointer
/// `ptr`, as (offset, length), if it lies inside a memory of `mem_len` bytes.
pub fn checked_range(mem_len: usize, ptr: i32, count: i32, elem_bytes: u64) -> (r: Option<
    (usize, usize),
>)
    requires
        elem_bytes <= 64,
    ensures
        r is Some <==> count >= 0 && range_ok(mem_len as int, ptr, count * elem_bytes),
        r matches Some((o, l)) ==> o == guest_addr(ptr) && l == count * elem_bytes,
{
    if count < 0 {
        return None;
    }
    let start = (ptr as u32) as u64;
    let c = count as u64;
    assert(c * elem_bytes <= 0x8000_0000u64 * 64) by (nonlinear_arith)
        requires
            c < 0x8000_0000u64,
            elem_bytes <= 64,
    ;
    let len = c * elem_bytes;
    if start + len > mem_len as u64 {
        None
    } else {
        Some((start as usize, len as usize))
    }
}

/// A copy of `count` elements of `elem_bytes` bytes each at the guest pointer `ptr`, if
/// they all lie inside guest memory.
pub fn read_bytes(mem: &[u8], ptr: i32, count: i32, elem_bytes: u64) -> (r: Option<Vec<u8>>)
    requires
        elem_bytes <= 64,
    ensures
        r is Some <==> count >= 0 && range_ok(mem@.len() as int, ptr, count * elem_bytes),
        r is Some ==> r->0@ == mem@.subrange(
            guest_addr(ptr),
            guest_addr(ptr) + count * elem_bytes,
        ),
{
    match checked_range(mem.len(), ptr, count, elem_bytes) {
        Some((start, n)) => {
            let part = vstd::slice::slice_subrange(mem, start, start + n);
            Some(vstd::slice::slice_to_vec(part))
        },
        None => None,
    }
}

} // verus!
