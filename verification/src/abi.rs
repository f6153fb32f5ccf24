//! The binary contract between the host and a handler module.

use vstd::prelude::*;
use vstd::slice::slice_to_vec;

verus! {

/// The contract version this host was built against.
pub const INGOTS_VERSION: u16 = 1;

/// The exported integer that holds the contract version of a module.
pub const VERSION_SYMBOL: &'static str = "INGOTS_VERSION";

/// The exported function that constructs the handler instance of a module.
pub const ENTRYPOINT_SYMBOL: &'static str = "__ingot_init";

/// The exported function that releases what the entry function returned.
pub const DEALLOCATOR_SYMBOL: &'static str = "__ingot_free";

/// Whether a module that exports `found` as its version tag may be loaded by a
/// host built against `expected`. A module without a tag never matches.
pub open spec fn spec_version_matches(found: Option<u16>, expected: u16) -> bool {
    found == Some(expected)
}

/// Compares a module's exported version tag with the expected one, by strict
/// equality.
pub fn version_matches(found: Option<u16>, expected: u16) -> (ok: bool)
    ensures
        ok == spec_version_matches(found, expected),
{
    match found {
        Some(v) => v == expected,
        None => false,
    }
}

/// The name of a symbol as the dynamic linker takes it: the bytes of `name`
/// followed by one NUL byte.
pub fn symbol_name(name: &[u8]) -> (symbol: Vec<u8>)
    ensures
        symbol@ == name@.push(0u8),
{
    let mut symbol: Vec<u8> = slice_to_vec(name);
    symbol.push(0u8);
    symbol
}

} // verus!
