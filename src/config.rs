//! Build-time configuration.
use vstd::prelude::*;

verus! {

/// The version of this build, shown in the about dialog.
pub const VERSION: &'static str = "0.1.0";

} // verus!
