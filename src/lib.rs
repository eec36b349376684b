//! Native backend of the Flowent desktop application: the values and
//! decisions behind the three frontend-callable operations and the
//! one-shot startup sequence, each with a proved contract.

use vstd::prelude::*;

pub mod launch;
pub mod platform;
pub mod startup;
pub mod version;

verus! {

} // verus!
