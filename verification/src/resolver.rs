//! Locating the shared shim executable at command-dispatch time. The choice
//! among the candidate locations is a pure decision over the override value
//! and two existence facts, in a fixed priority: an explicit override is
//! trusted verbatim, then the default location under the root, then one fixed
//! system fallback; otherwise resolution fails. Nothing is created, retried
//! or probed beyond those candidates.

use vstd::prelude::*;

use crate::error::ErrorDetails;

verus! {

/// The default location of the shared shim executable under the root.
pub open spec fn spec_shim_executable_default(root: Seq<char>) -> Seq<char> {
    root + "/shim"@
}

pub fn shim_executable_default(root: &str) -> (r: String)
    ensures
        r@ == spec_shim_executable_default(root@),
{
    String::from_str(root).concat("/shim")
}

/// The fixed system location used by privileged installs.
pub fn shim_executable_fallback() -> (r: String)
    ensures
        r@ == "/usr/bin/volta-lib/shim"@,
{
    String::from_str("/usr/bin/volta-lib/shim")
}

/// Resolves the shim executable. `shim_override` is the injected override
/// value; `default_present` and `fallback_present` say whether the default
/// and fallback candidates exist on disk. First match wins: the override is
/// returned verbatim with no existence check; with no override the default
/// location is taken if present, then the fallback if present; with neither
/// present resolution fails, and is never retried here.
pub fn shim_executable(
    root: &str,
    shim_override: Option<String>,
    default_present: bool,
    fallback_present: bool,
) -> (r: Result<String, ErrorDetails>)
    ensures
        shim_override matches Some(p) ==> (r matches Ok(q) && q@ == p@),
        shim_override is None && default_present ==> (r matches Ok(q) && q@
            == spec_shim_executable_default(root@)),
        shim_override is None && !default_present && fallback_present ==> (r matches Ok(q) && q@
            == "/usr/bin/volta-lib/shim"@),
        shim_override is None && !default_present && !fallback_present ==> (r matches Err(e) && e
            == ErrorDetails::ShimExecutableNotFound),
{
    match shim_override {
        Some(location) => Ok(location),
        None => {
            if default_present {
                Ok(shim_executable_default(root))
            } else if fallback_present {
                Ok(shim_executable_fallback())
            } else {
                Err(ErrorDetails::ShimExecutableNotFound)
            }
        },
    }
}

} // verus!
