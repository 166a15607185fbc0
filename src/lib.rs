//! Runtime parameters of a vector similarity search extension: their
//! descriptors, lookup by name, and a registry that is registered once and then
//! read and assigned within each parameter's type and bounds.

use vstd::prelude::*;

pub mod gucs;
pub mod laws;
pub mod registry;

verus! {

} // verus!
