//! Naming the runtime environment from platform probes.
//!
//! The probes themselves (environment variables, marker files, the OS
//! release text) are read by the surrounding runtime; the verified core
//! only turns their three boolean outcomes into the display name.

use vstd::prelude::*;
use vstd::string::StringExecFns;

verus! {

/// The environment name for the given probe outcomes.
pub open spec fn spec_environment_name(
    in_container: bool,
    is_aurora: bool,
    is_fedora: bool,
) -> Seq<char> {
    if in_container && is_aurora {
        "Aurora DX Distrobox"@
    } else if in_container && is_fedora {
        "Fedora Distrobox"@
    } else if in_container {
        "Container Environment"@
    } else if is_aurora {
        "Aurora DX (Host)"@
    } else if is_fedora {
        "Fedora (Host)"@
    } else {
        "Native Environment"@
    }
}

/// Names the runtime environment: `in_container` is whether a container
/// marker was found, `is_aurora` / `is_fedora` whether the OS release
/// text names those distributions.
pub fn environment_name(in_container: bool, is_aurora: bool, is_fedora: bool) -> (s: String)
    ensures
        s@ == spec_environment_name(in_container, is_aurora, is_fedora),
{
    if in_container && is_aurora {
        String::from_str("Aurora DX Distrobox")
    } else if in_container && is_fedora {
        String::from_str("Fedora Distrobox")
    } else if in_container {
        String::from_str("Container Environment")
    } else if is_aurora {
        String::from_str("Aurora DX (Host)")
    } else if is_fedora {
        String::from_str("Fedora (Host)")
    } else {
        String::from_str("Native Environment")
    }
}

} // verus!
