use vstd::prelude::*;
use vstd::utf8::{decode_utf8, valid_utf8};

use crate::guest_memory::{guest_addr, range_ok, read_bytes};

verus! {

/// Relies on std's `str::from_utf8`, which accepts exactly the byte strings that are valid
/// UTF-8, and on `str::to_string`, which copies the characters.
#[verifier::external_body]
fn utf8_to_string(b: &[u8]) -> (r: Option<String>)
    ensures
        r is Some <==> valid_utf8(b@),
        r is Some ==> r->0@ == decode_utf8(b@),
{
    match std::str::from_utf8(b) {
        Ok(s) => Some(s.to_string()),
        Err(_) => None,
    }
}

/// Why a log call failed.
#[derive(Debug, Clone, Copy, PartialEq, Eq, Structural)]
pub enum LogError {
    /// The text reaches past guest memory.
    InvalidData,
    NotUtf8,
}

/// The host side of the guest's logging calls.
#[derive(Debug, Clone, Copy, PartialEq, Eq, Structural)]
pub struct TextContext;

impl TextContext {
    /// The `len` bytes of text at `text_ptr`, decoded as UTF-8.
    pub fn read_log_text(mem: &[u8], text_ptr: i32, len: i32) -> (r: Result<String, LogError>)
        ensures
            r == Err::<String, LogError>(LogError::InvalidData) <==> !(len >= 0 && range_ok(
                mem@.len() as int,
                text_ptr,
                len as int,
            )),
            r is Err ==> r->Err_0 == LogError::InvalidData || r->Err_0 == LogError::NotUtf8,
            (len >= 0 && range_ok(mem@.len() as int, text_ptr, len as int)) ==> ({
                let b = mem@.subrange(guest_addr(text_ptr), guest_addr(text_ptr) + len);
                &&& r is Ok <==> valid_utf8(b)
                &&& r is Ok ==> r->Ok_0@ == decode_utf8(b)
            }),
    {
        let data = match read_bytes(mem, text_ptr, len, 1) {
            Some(d) => d,
            None => {
                return Err(LogError::InvalidData);
            },
        };
        match utf8_to_string(data.as_slice()) {
            Some(s) => Ok(s),
            None => Err(LogError::NotUtf8),
        }
    }
}

} // verus!
