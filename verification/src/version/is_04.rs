//! The versions of IS-04.

use vstd::prelude::*;

use crate::version::APIVersion;

verus! {

/// IS-04 version 1.0.
pub fn v1_0() -> (v: APIVersion)
    ensures
        v == (APIVersion { major: 1, minor: 0 }),
{
    APIVersion { major: 1, minor: 0 }
}

} // verus!
