//! What can be wrong with a configuration.

use vstd::prelude::*;

verus! {

/// Why a simulation, an ensemble or a pipeline was refused.
#[derive(Copy, Clone, Debug, PartialEq, Eq)]
pub enum ConfigError {
    /// An ensemble of no neurons was asked for.
    EmptyPopulation,
    /// A run of no ticks was asked for.
    NoTimesteps,
    /// The capacitance is not above zero.
    NonPositiveCapacitance,
    /// The length of a tick is not above zero.
    NonPositiveTimeStep,
    /// A system stands before one that has to run earlier.
    OutOfOrder,
}

} // verus!
