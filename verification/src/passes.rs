//! The trusted boundary to the two outside validators.
//!
//! Each pass is deterministic in the module bytes alone, so its verdict is
//! given a name (`coarse_accepts`, `strict_accepts`) that the contracts of the
//! rest of the crate speak of.

use vstd::prelude::*;
use crate::spec_module_header_ok;

verus! {

/// Whether the coarse pass accepts the given module bytes.
///
/// Names the verdict of `wasmi::Module::new` under this crate's fixed engine
/// configuration (floating point disabled, function-body validation deferred).
/// The call reads nothing but the bytes, so the verdict is a function of them
/// alone.
pub uninterp spec fn coarse_accepts(code: Seq<u8>) -> bool;

/// Whether the strict pass accepts the given module bytes.
///
/// Names the verdict of `wasmparser::Validator::validate_all` under this
/// crate's fixed baseline feature set. The call reads nothing but the bytes,
/// so the verdict is a function of them alone.
pub uninterp spec fn strict_accepts(code: Seq<u8>) -> bool;

/// Relies on `wasmi::Module::new`, run as a cheap structural pre-filter: the
/// engine's `Config` disables floating point and chooses
/// `CompilationMode::Lazy`, which defers per-instruction validation of
/// function bodies while still decoding every section and checking
/// module-level rules (header, section framing, types, indices of imports and
/// exports) eagerly. Its parser refuses any input that does not begin with
/// the 4-byte magic followed by the version-1 header, so an input without
/// that header is never accepted.
#[verifier::external_body]
pub(crate) fn coarse_pass(code: &Vec<u8>) -> (r: bool)
    ensures
        r == coarse_accepts(code@),
        !spec_module_header_ok(code@) ==> !r,
{
    let mut config = wasmi::Config::default();
    config.floats(false);
    config.compilation_mode(wasmi::CompilationMode::Lazy);
    let engine = wasmi::Engine::new(&config);
    wasmi::Module::new(&engine, code.as_slice()).is_ok()
}

/// Relies on `wasmparser::Validator::validate_all`, the full structural and
/// per-instruction validator, with the feature set fixed to `WASM1` minus
/// floating point: threads, reference types, SIMD, bulk memory and
/// multi-value all stay disabled, and every floating-point type or
/// instruction is refused.
#[verifier::external_body]
pub(crate) fn strict_pass(code: &Vec<u8>) -> (r: bool)
    ensures
        r == strict_accepts(code@),
{
    let features = wasmparser::WasmFeatures::WASM1.difference(wasmparser::WasmFeatures::FLOATS);
    let mut validator = wasmparser::Validator::new_with_features(features);
    validator.validate_all(code.as_slice()).is_ok()
}

} // verus!
