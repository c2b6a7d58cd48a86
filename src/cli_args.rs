use vstd::prelude::*;

verus! {

/// The runtime values of an unfiltered run: subscription override, event
/// name and the location that commands default to.
#[derive(Clone, Debug, PartialEq, Eq)]
pub struct CliArgs {
    pub subscription: String,
    pub event: String,
    pub location: String,
}

} // verus!
