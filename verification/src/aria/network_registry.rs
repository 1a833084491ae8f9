//! The network registry's defaults for an upload that names no driver or
//! isolation.

use vstd::prelude::*;
use vstd::string::*;

verus! {

/// Driver of an uploaded network that names none.
pub fn default_driver() -> (s: String)
    ensures
        s@ == "bridge"@,
{
    String::from_str("bridge")
}

/// Isolation of an uploaded network that names none.
pub fn default_isolation() -> (s: String)
    ensures
        s@ == "default"@,
{
    String::from_str("default")
}

} // verus!
