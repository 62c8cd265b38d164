//! Pre-installation checks for running the controller as a service.
use vstd::prelude::*;

verus! {

/// Whether a conflicting power-management tool is known to be installed.
/// No such detection is performed yet, so the answer is always negative.
pub fn check_installed_power_tools() -> (r: bool)
    ensures
        !r,
{
    false
}

} // verus!
