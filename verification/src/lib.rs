//! Static validation of WebAssembly module bytes.
//!
//! The crate decides whether an untrusted byte buffer holds a well-formed,
//! safely executable binary module before any attempt to run it. Two
//! validators are run in order: a coarse structural pre-filter with floating
//! point disabled, then a strict structural and per-instruction validator
//! under a fixed baseline policy (no threads, no reference types, no SIMD,
//! no bulk memory, no multi-value, no floating point). The outcome is a
//! tri-state numeric code; the buffer is consumed by the call and released
//! on every path.

use vstd::prelude::*;

pub mod passes;

verus! {

/// The 8-byte header that every binary module must begin with: the magic
/// bytes `\0asm` followed by encoding version 1 as a little-endian 32-bit
/// integer.
pub open spec fn spec_module_header_ok(code: Seq<u8>) -> bool {
    &&& code.len() >= 8
    &&& code[0] == 0x00u8
    &&& code[1] == 0x61u8
    &&& code[2] == 0x73u8
    &&& code[3] == 0x6du8
    &&& code[4] == 0x01u8
    &&& code[5] == 0x00u8
    &&& code[6] == 0x00u8
    &&& code[7] == 0x00u8
}

/// The result code for the given module bytes: `0` when both passes accept,
/// `1` when the coarse pass rejects, `2` when the coarse pass accepts but the
/// strict pass rejects.
pub open spec fn spec_validate(code: Seq<u8>) -> u32 {
    if !passes::coarse_accepts(code) {
        1u32
    } else if !passes::strict_accepts(code) {
        2u32
    } else {
        0u32
    }
}

/// Validates a binary module, consuming its buffer.
///
/// The buffer is moved into the call and dropped before it returns, on every
/// path, so no caller can reach it afterwards. The result is `0` exactly when
/// both validators accept the bytes; it depends on the byte content alone.
pub fn wasm_validate(code: Vec<u8>) -> (r: u32)
    ensures
        r == spec_validate(code@),
        r == 0 || r == 1 || r == 2,
        (r == 0) <==> (passes::coarse_accepts(code@) && passes::strict_accepts(code@)),
        (r == 1) <==> !passes::coarse_accepts(code@),
        (r == 2) <==> (passes::coarse_accepts(code@) && !passes::strict_accepts(code@)),
        !spec_module_header_ok(code@) ==> r == 1,
        code@.len() < 8 ==> r == 1,
{
    if !passes::coarse_pass(&code) {
        return 1;
    }
    if !passes::strict_pass(&code) {
        return 2;
    }
    0
}

/// The result code is a function of the byte content alone: validating the
/// same bytes twice, from fresh buffers, yields the same code both times.
pub proof fn lemma_validate_deterministic(a: Seq<u8>, b: Seq<u8>)
    requires
        a == b,
    ensures
        spec_validate(a) == spec_validate(b),
{
}

} // verus!
