//! The clock of a simulation.

use crate::error::ConfigError;
use crate::scalar::{is_positive, lawful, positive, Scalar};
use crate::world::World;
use vstd::prelude::*;
use vstd::std_specs::ops::SubSpec;

verus! {

/// Index of the current tick. Ticks are numbered from 1.
#[derive(Copy, Clone, Default)]
pub struct TimeStep(pub usize);

/// Length of one tick in simulated time.
#[derive(Copy, Clone, Default)]
pub struct DeltaTime<T>(pub T);

/// Installs the clock: the first tick, and the length of a tick. A length
/// that is not above zero is refused, and the world is then left as it was.
/// The entities are kept either way.
pub fn add_time_resources<T: Scalar>(
    world: &mut World<T>,
    time_step_length: DeltaTime<T>,
) -> (done: Result<(), ConfigError>)
    requires
        lawful::<T>(),
        time_step_length.0.sub_req(time_step_length.0),
    ensures
        done is Ok <==> positive(time_step_length.0),
        done is Ok ==> {
            &&& final(world).time == TimeStep(1)
            &&& final(world).delta_time == Some(time_step_length)
        },
        done is Err ==> {
            &&& done == Err::<(), ConfigError>(ConfigError::NonPositiveTimeStep)
            &&& final(world).time == old(world).time
            &&& final(world).delta_time == old(world).delta_time
        },
        final(world).rows == old(world).rows,
        final(world).spike_monitors == old(world).spike_monitors,
        final(world).voltage_monitors == old(world).voltage_monitors,
{
    if !is_positive(time_step_length.0) {
        return Err(ConfigError::NonPositiveTimeStep);
    }
    world.time = TimeStep(1);
    world.delta_time = Some(time_step_length);
    Ok(())
}

} // verus!
