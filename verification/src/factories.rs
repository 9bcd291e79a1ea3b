//! Building a simulation, populating it and running it.

use crate::components::{
    Capacitance, HardThreshold, Spike, SpikeMonitor, StaticConductance, Voltage, VoltageMonitor,
    VoltageRecord, VoltageReset,
};
use crate::dynamical_variable::DynamicalScalar;
use crate::error::ConfigError;
use crate::pipeline::{dispatch_after, dispatch_req, run_after, run_req, tick_after, Dispatcher};
use crate::resources::{add_time_resources, DeltaTime, TimeStep};
use crate::scalar::{is_positive, lawful, positive, Scalar};
use crate::world::{Attributes, Entity, EntityModel, World, WorldModel};
use vstd::prelude::*;
use vstd::std_specs::ops::SubSpec;

verus! {

/// How far a simulation has come.
#[derive(Copy, Clone, Debug, PartialEq, Eq)]
pub enum RunState {
    /// No tick has run.
    Initialized,
    /// Some ticks have run, and some are left.
    Running,
    /// Every tick has run.
    Completed,
}

/// The state of a simulation of `num_timesteps` ticks of which `executed` have
/// run.
pub open spec fn state_at(executed: usize, num_timesteps: usize) -> RunState {
    if executed == 0 {
        RunState::Initialized
    } else if executed < num_timesteps {
        RunState::Running
    } else {
        RunState::Completed
    }
}

/// A world, the number of ticks to run it for, and how far the run has come.
pub struct NeuroSimulation<T> {
    pub world: World<T>,
    pub num_timesteps: usize,
    pub executed: usize,
    pub state: RunState,
}

impl<T: Scalar> NeuroSimulation<T> {
    /// The world is well formed, its clock is installed, and the state is
    /// what the number of executed ticks makes it.
    pub open spec fn wf(&self) -> bool {
        &&& self.world.wf()
        &&& self.world@.time >= 1
        &&& self.num_timesteps > 0
        &&& self.executed <= self.num_timesteps
        &&& self.state == state_at(self.executed, self.num_timesteps)
    }

    /// The number of ticks that are left to run.
    pub open spec fn remaining(&self) -> nat {
        (self.num_timesteps - self.executed) as nat
    }

    /// A simulation with an empty world whose clock stands at the first tick.
    /// It is refused if no tick is asked for, or else if the length of a tick
    /// is not above zero.
    pub fn new(time_step_length: T, num_timesteps: usize) -> (made: Result<
        NeuroSimulation<T>,
        ConfigError,
    >)
        requires
            lawful::<T>(),
            time_step_length.sub_req(time_step_length),
        ensures
            match made {
                Ok(simulation) => {
                    &&& num_timesteps > 0
                    &&& positive(time_step_length)
                    &&& simulation.wf()
                    &&& simulation.world@ == (WorldModel {
                        time: 1,
                        delta_time: Some(DeltaTime(time_step_length)),
                        entities: Seq::<EntityModel<T>>::empty(),
                    })
                    &&& simulation.num_timesteps == num_timesteps
                    &&& simulation.executed == 0
                    &&& simulation.state == RunState::Initialized
                },
                Err(error) => {
                    &&& num_timesteps == 0 || !positive(time_step_length)
                    &&& error == if num_timesteps == 0 {
                        ConfigError::NoTimesteps
                    } else {
                        ConfigError::NonPositiveTimeStep
                    }
                },
            },
    {
        if num_timesteps == 0 {
            return Err(ConfigError::NoTimesteps);
        }
        let mut world = World::new();
        match add_time_resources(&mut world, DeltaTime(time_step_length)) {
            Ok(()) => {},
            Err(error) => {
                return Err(error);
            },
        }
        proof {
            assert(world@.entities =~= Seq::<EntityModel<T>>::empty());
        }
        Ok(NeuroSimulation { world, num_timesteps, executed: 0, state: RunState::Initialized })
    }

    /// Runs one tick if any is left: the pipeline, then the clock advances by
    /// one. Tells whether a tick ran; a completed simulation stays as it is.
    pub fn step(&mut self, dispatcher: &Dispatcher) -> (ran: bool)
        requires
            lawful::<T>(),
            old(self).wf(),
            old(self).remaining() > 0 ==> {
                &&& old(self).world@.time < usize::MAX
                &&& dispatch_req(dispatcher@, 0, old(self).world@)
            },
        ensures
            final(self).wf(),
            final(self).num_timesteps == old(self).num_timesteps,
            ran == (old(self).remaining() > 0),
            ran ==> {
                &&& final(self).executed == old(self).executed + 1
                &&& final(self).world@ == tick_after(dispatcher@, old(self).world@)
                &&& final(self).world@.time == old(self).world@.time + 1
            },
            final(self).world@.entities.len() == old(self).world@.entities.len(),
            !ran ==> final(self).executed == old(self).executed && final(self).world@ == old(
                self,
            ).world@,
    {
        if self.executed >= self.num_timesteps {
            return false;
        }
        let ghost before = self.world@;
        dispatcher.dispatch(&mut self.world);
        let current_time: usize = self.world.time.0;
        self.world.time = TimeStep(current_time + 1);
        self.executed = self.executed + 1;
        if self.executed < self.num_timesteps {
            self.state = RunState::Running;
        } else {
            self.state = RunState::Completed;
        }
        proof {
            assert(self.world@.entities =~= dispatch_after(dispatcher@, 0, before).entities);
            assert(self.world@ == tick_after(dispatcher@, before));
        }
        true
    }

    /// Runs every tick that is left, and leaves the simulation completed.
    pub fn run(&mut self, dispatcher: &Dispatcher)
        requires
            lawful::<T>(),
            old(self).wf(),
            old(self).world@.time + old(self).remaining() <= usize::MAX,
            run_req(dispatcher@, old(self).world@, old(self).remaining()),
        ensures
            final(self).wf(),
            final(self).num_timesteps == old(self).num_timesteps,
            final(self).executed == old(self).num_timesteps,
            final(self).state == RunState::Completed,
            final(self).world@ == run_after(dispatcher@, old(self).world@, old(self).remaining()),
            final(self).world@.time == old(self).world@.time + old(self).remaining(),
            final(self).world@.entities.len() == old(self).world@.entities.len(),
    {
        while self.executed < self.num_timesteps
            invariant
                lawful::<T>(),
                self.wf(),
                self.num_timesteps == old(self).num_timesteps,
                self.world@.time + self.remaining() == old(self).world@.time + old(
                    self,
                ).remaining(),
                old(self).world@.time + old(self).remaining() <= usize::MAX,
                self.world@.entities.len() == old(self).world@.entities.len(),
                run_req(dispatcher@, self.world@, self.remaining()),
                run_after(dispatcher@, self.world@, self.remaining()) == run_after(
                    dispatcher@,
                    old(self).world@,
                    old(self).remaining(),
                ),
            decreases self.num_timesteps - self.executed,
        {
            self.step(dispatcher);
        }
    }
}

/// The parameters that the neurons of an ensemble share.
#[derive(Copy, Clone)]
pub struct LIFParameters<T> {
    pub capacitance: T,
    pub leak_conductance: T,
    pub leak_reversal: T,
    pub threshold: T,
    pub reset: T,
}

impl<T: Scalar> LIFParameters<T> {
    pub fn from_scalars(
        capacitance: T,
        leak_conductance: T,
        leak_reversal: T,
        threshold: T,
        reset: T,
    ) -> (parameters: LIFParameters<T>)
        ensures
            parameters == (LIFParameters {
                capacitance,
                leak_conductance,
                leak_reversal,
                threshold,
                reset,
            }),
    {
        LIFParameters { capacitance, leak_conductance, leak_reversal, threshold, reset }
    }

    /// The components of a neuron with these parameters: it rests at the leak
    /// reversal voltage, has not spiked and receives no input.
    pub open spec fn row(self) -> Attributes<T> {
        Attributes {
            voltage: Some(
                Voltage(DynamicalScalar { even: self.leak_reversal, odd: self.leak_reversal }),
            ),
            capacitance: Some(Capacitance(self.capacitance)),
            static_conductance: Some(
                StaticConductance {
                    conductance: self.leak_conductance,
                    reversal_voltage: self.leak_reversal,
                },
            ),
            threshold: Some(HardThreshold(self.threshold)),
            reset: Some(VoltageReset(self.reset)),
            spike: Some(Spike(DynamicalScalar { even: 0usize, odd: 0usize })),
            constant_input: None,
        }
    }

    /// The neuron numbered `number` of an ensemble with these parameters,
    /// with two monitors that have recorded nothing yet.
    pub open spec fn entity(self, number: int) -> EntityModel<T> {
        EntityModel {
            row: self.row(),
            spike_log: Some(Seq::<usize>::empty()),
            trace: Some(
                VoltageRecord {
                    neuron_number: number as usize,
                    samples: Seq::<(usize, T)>::empty(),
                },
            ),
        }
    }
}

/// Adds `num_neurons` neurons with the given parameters to the simulation,
/// each with a spike monitor and a voltage monitor numbered from 0 within the
/// ensemble, and returns their
/// identities in the order in which they were made. The ensemble is refused,
/// and the simulation left as it was, if it is empty, or else if the
/// capacitance is not above zero.
pub fn create_lif_ensemble<T: Scalar>(
    simulation: &mut NeuroSimulation<T>,
    model_parameters: LIFParameters<T>,
    num_neurons: usize,
) -> (made: Result<Vec<Entity>, ConfigError>)
    requires
        lawful::<T>(),
        old(simulation).world.wf(),
        model_parameters.capacitance.sub_req(model_parameters.capacitance),
        old(simulation).world@.entities.len() + num_neurons <= usize::MAX,
    ensures
        final(simulation).world.wf(),
        final(simulation).num_timesteps == old(simulation).num_timesteps,
        final(simulation).executed == old(simulation).executed,
        final(simulation).state == old(simulation).state,
        match made {
            Ok(handles) => {
                &&& num_neurons > 0
                &&& positive(model_parameters.capacitance)
                &&& handles@.len() == num_neurons
                &&& forall|k: int|
                    0 <= k < num_neurons ==> (#[trigger] handles@[k]).0 == old(
                        simulation,
                    ).world@.entities.len() + k
                &&& final(simulation).world@ == (WorldModel {
                    entities: old(simulation).world@.entities + Seq::new(
                        num_neurons as nat,
                        |k: int| model_parameters.entity(k),
                    ),
                    ..old(simulation).world@
                })
            },
            Err(error) => {
                &&& num_neurons == 0 || !positive(model_parameters.capacitance)
                &&& error == if num_neurons == 0 {
                    ConfigError::EmptyPopulation
                } else {
                    ConfigError::NonPositiveCapacitance
                }
                &&& final(simulation).world@ == old(simulation).world@
            },
        },
{
    if num_neurons == 0 {
        return Err(ConfigError::EmptyPopulation);
    }
    if !is_positive(model_parameters.capacitance) {
        return Err(ConfigError::NonPositiveCapacitance);
    }
    let ghost base = simulation.world@.entities.len();
    let mut handles: Vec<Entity> = Vec::new();
    let mut neuron_num: usize = 0;
    while neuron_num < num_neurons
        invariant
            neuron_num <= num_neurons,
            base == old(simulation).world@.entities.len(),
            base + num_neurons <= usize::MAX,
            simulation.world.wf(),
            simulation.num_timesteps == old(simulation).num_timesteps,
            simulation.executed == old(simulation).executed,
            simulation.state == old(simulation).state,
            handles@.len() == neuron_num,
            forall|k: int| 0 <= k < neuron_num ==> (#[trigger] handles@[k]).0 == base + k,
            simulation.world@ == (WorldModel {
                entities: old(simulation).world@.entities + Seq::new(
                    neuron_num as nat,
                    |k: int| model_parameters.entity(k),
                ),
                ..old(simulation).world@
            }),
        decreases num_neurons - neuron_num,
    {
        let row = Attributes {
            voltage: Some(Voltage::new(model_parameters.leak_reversal)),
            capacitance: Some(Capacitance(model_parameters.capacitance)),
            static_conductance: Some(
                StaticConductance::new(
                    model_parameters.leak_conductance,
                    model_parameters.leak_reversal,
                ),
            ),
            threshold: Some(HardThreshold(model_parameters.threshold)),
            reset: Some(VoltageReset(model_parameters.reset)),
            spike: Some(Spike::new()),
            constant_input: None,
        };
        let entity = simulation.world.create_entity(
            row,
            Some(SpikeMonitor::new()),
            Some(VoltageMonitor::new(neuron_num)),
        );
        handles.push(entity);
        proof {
            assert(simulation.world@.entities =~= old(simulation).world@.entities + Seq::new(
                (neuron_num + 1) as nat,
                |k: int| model_parameters.entity(k),
            ));
        }
        neuron_num += 1;
    }
    proof {
        assert(old(simulation).world@.entities + Seq::new(
            0nat,
            |k: int| model_parameters.entity(k),
        ) =~= old(simulation).world@.entities);
    }
    Ok(handles)
}

} // verus!
