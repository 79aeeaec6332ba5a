//! The prefixes of info and warning messages written to a display handle.
use vstd::prelude::*;
use vstd::string::StringSliceAdditionalSpecFns;

use crate::progress::DisplayHandle;

verus! {

/// Writes "\[INFO\] " in the given color (`yellow`, then `reset`).
pub fn _info_helper(handle: &mut DisplayHandle, yellow: &str, reset: &str)
    ensures
        final(handle)@ == old(handle)@ + yellow.spec_bytes() + "[INFO]".spec_bytes()
            + reset.spec_bytes() + " ".spec_bytes(),
{
    handle.write_str(yellow);
    handle.write_str("[INFO]");
    handle.write_str(reset);
    handle.write_str(" ");
}

/// Writes the warning prefix in the given color: "Warning:" by default,
/// "\[WARNING\]" in accessible mode.
pub fn _warning_helper(handle: &mut DisplayHandle, accessible: bool, orange: &str, reset: &str)
    ensures
        final(handle)@ == old(handle)@ + orange.spec_bytes() + (if accessible {
            "[WARNING]".spec_bytes()
        } else {
            "Warning:".spec_bytes()
        }) + reset.spec_bytes() + " ".spec_bytes(),
{
    handle.write_str(orange);
    if !accessible {
        handle.write_str("Warning:");
    } else {
        handle.write_str("[WARNING]");
    }
    handle.write_str(reset);
    handle.write_str(" ");
}

} // verus!
