//! The per-template-version check suites.

pub mod v2;
pub mod v3;

use vstd::prelude::*;

verus! {

} // verus!
