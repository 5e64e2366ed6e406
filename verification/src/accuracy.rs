//! Requested accuracy tiers of the remote location service, and the
//! fixed ordinal each tier has on the wire. The ordinals are a protocol
//! contract with the service and must not change.

use vstd::prelude::*;

verus! {

/// Accuracy tier as chosen on the command line.
#[derive(Debug, Clone, Copy, PartialEq, Eq, Structural)]
pub enum AccuracyLevelArg {
    Unset,
    Country,
    City,
    Neighborhood,
    Street,
    Exact,
}

/// Accuracy tier as spoken by the remote service.
#[derive(Debug, Clone, Copy, PartialEq, Eq, Structural)]
pub enum AccuracyLevel {
    Unset,
    Country,
    City,
    Neighborhood,
    Street,
    Exact,
}

/// The wire ordinal of each tier, ascending in precision.
pub open spec fn spec_ordinal(level: AccuracyLevel) -> u32 {
    match level {
        AccuracyLevel::Unset => 0,
        AccuracyLevel::Country => 1,
        AccuracyLevel::City => 4,
        AccuracyLevel::Neighborhood => 5,
        AccuracyLevel::Street => 6,
        AccuracyLevel::Exact => 8,
    }
}

/// The tier a command-line choice selects.
pub open spec fn spec_level_of_arg(arg: AccuracyLevelArg) -> AccuracyLevel {
    match arg {
        AccuracyLevelArg::Unset => AccuracyLevel::Unset,
        AccuracyLevelArg::Country => AccuracyLevel::Country,
        AccuracyLevelArg::City => AccuracyLevel::City,
        AccuracyLevelArg::Neighborhood => AccuracyLevel::Neighborhood,
        AccuracyLevelArg::Street => AccuracyLevel::Street,
        AccuracyLevelArg::Exact => AccuracyLevel::Exact,
    }
}

impl AccuracyLevel {
    /// The ordinal sent over the wire for this tier.
    pub fn as_ordinal(self) -> (r: u32)
        ensures
            r == spec_ordinal(self),
    {
        match self {
            AccuracyLevel::Unset => 0,
            AccuracyLevel::Country => 1,
            AccuracyLevel::City => 4,
            AccuracyLevel::Neighborhood => 5,
            AccuracyLevel::Street => 6,
            AccuracyLevel::Exact => 8,
        }
    }
}

impl From<AccuracyLevelArg> for AccuracyLevel {
    fn from(arg: AccuracyLevelArg) -> (r: AccuracyLevel) {
        match arg {
            AccuracyLevelArg::Unset => AccuracyLevel::Unset,
            AccuracyLevelArg::Country => AccuracyLevel::Country,
            AccuracyLevelArg::City => AccuracyLevel::City,
            AccuracyLevelArg::Neighborhood => AccuracyLevel::Neighborhood,
            AccuracyLevelArg::Street => AccuracyLevel::Street,
            AccuracyLevelArg::Exact => AccuracyLevel::Exact,
        }
    }
}

impl vstd::std_specs::convert::FromSpecImpl<AccuracyLevelArg> for AccuracyLevel {
    open spec fn obeys_from_spec() -> bool {
        true
    }

    open spec fn from_spec(arg: AccuracyLevelArg) -> AccuracyLevel {
        spec_level_of_arg(arg)
    }
}

} // verus!
