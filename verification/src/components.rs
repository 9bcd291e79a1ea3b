//! The attributes that an entity may carry.

use crate::dynamical_variable::{DynamicalScalar, DynamicalVariable, TimeStep};
use crate::scalar::{lawful, Scalar};
use vstd::prelude::*;
use vstd::std_specs::ops::{MulSpec, SubSpec};

verus! {

/// Membrane potential.
#[derive(Copy, Clone)]
pub struct Voltage<T>(pub DynamicalScalar<T>);

impl<T: Scalar> Voltage<T> {
    /// A voltage that reads `initial_voltage` until it is first written.
    pub fn new(initial_voltage: T) -> (voltage: Voltage<T>)
        ensures
            voltage == Voltage(DynamicalScalar { even: initial_voltage, odd: initial_voltage }),
    {
        Voltage(DynamicalScalar::new(initial_voltage))
    }
}

/// Membrane capacitance.
#[derive(Copy, Clone)]
pub struct Capacitance<T>(pub T);

/// Voltage-independent conductance.
#[derive(Copy, Clone)]
pub struct StaticConductance<T> {
    pub conductance: T,
    pub reversal_voltage: T,
}

impl<T: Scalar> StaticConductance<T> {
    pub fn new(conductance: T, reversal_voltage: T) -> (made: StaticConductance<T>)
        ensures
            made == (StaticConductance { conductance, reversal_voltage }),
    {
        StaticConductance { conductance, reversal_voltage }
    }

    /// The operands of `current` are within what `T`'s operators accept.
    pub open spec fn current_req(self, voltage: Voltage<T>, t: TimeStep) -> bool {
        &&& voltage.0.committed(t).sub_req(self.reversal_voltage)
        &&& self.conductance.mul_req(voltage.0.committed(t).sub_spec(self.reversal_voltage))
    }

    /// Conductance times the distance of the committed voltage from the
    /// reversal voltage.
    pub open spec fn current(self, voltage: Voltage<T>, t: TimeStep) -> T {
        self.conductance.mul_spec(voltage.0.committed(t).sub_spec(self.reversal_voltage))
    }

    /// The current that this conductance drives at tick `current_time`.
    pub fn get_current(&self, voltage: &Voltage<T>, current_time: TimeStep) -> (current: T)
        requires
            lawful::<T>(),
            current_time >= 1,
            self.current_req(*voltage, current_time),
        ensures
            current == self.current(*voltage, current_time),
    {
        let driving_force = voltage.0.dynamical_get(current_time) - self.reversal_voltage;
        self.conductance * driving_force
    }
}

/// Spike threshold.
#[derive(Copy, Clone)]
pub struct HardThreshold<T>(pub T);

/// Voltage that a neuron jumps to after a spike.
#[derive(Copy, Clone)]
pub struct VoltageReset<T>(pub T);

/// Spike indicator of a tick: `0` or `1`.
#[derive(Copy, Clone)]
pub struct Spike(pub DynamicalScalar<usize>);

impl Spike {
    /// An indicator that reads `0` until it is first written.
    pub fn new() -> (spike: Spike)
        ensures
            spike == Spike(DynamicalScalar { even: 0usize, odd: 0usize }),
    {
        Spike(DynamicalScalar::new(0))
    }
}

/// Externally injected current.
#[derive(Copy, Clone)]
pub struct ConstantInput<T>(pub T);

/// An observer that records one component, tick by tick.
pub trait Monitor<T> {
    fn write(&mut self, monitored_variable: T, current_time: TimeStep)
        requires
            current_time >= 1,
    ;
}

/// Sparse log of the ticks at which a spike was read.
pub struct SpikeMonitor {
    pub events: Vec<TimeStep>,
}

/// The log after a tick at which `spike` was read.
pub open spec fn spike_log_after(log: Seq<TimeStep>, spike: Spike, t: TimeStep) -> Seq<TimeStep> {
    if spike.0.committed(t) > 0 {
        log.push(t)
    } else {
        log
    }
}

impl SpikeMonitor {
    /// A monitor with an empty log.
    pub fn new() -> (monitor: SpikeMonitor)
        ensures
            monitor.events@ == Seq::<TimeStep>::empty(),
    {
        SpikeMonitor { events: Vec::new() }
    }
}

impl Monitor<Spike> for SpikeMonitor {
    /// Appends `current_time` to the log when the spike read at that tick is
    /// not zero, and leaves the log as it is otherwise.
    fn write(&mut self, monitored_variable: Spike, current_time: TimeStep)
        ensures
            final(self).events@ == spike_log_after(
                old(self).events@,
                monitored_variable,
                current_time,
            ),
    {
        if monitored_variable.0.dynamical_get(current_time) > 0 {
            self.events.push(current_time);
        }
    }
}

/// Dense trace of the voltage of one neuron: one sample per tick, each with
/// the tick at which it was read.
pub struct VoltageMonitor<T> {
    pub trace: Vec<(TimeStep, T)>,
    pub neuron_number: usize,
}

/// What a voltage monitor holds: the neuron it belongs to, and the samples
/// recorded so far, in the order in which they were read.
pub struct VoltageRecord<T> {
    pub neuron_number: usize,
    pub samples: Seq<(TimeStep, T)>,
}

impl<T> View for VoltageMonitor<T> {
    type V = VoltageRecord<T>;

    open spec fn view(&self) -> VoltageRecord<T> {
        VoltageRecord { neuron_number: self.neuron_number, samples: self.trace@ }
    }
}

impl<T: Scalar> VoltageMonitor<T> {
    /// A monitor with an empty trace for neuron `neuron_number`.
    pub fn new(neuron_number: usize) -> (monitor: VoltageMonitor<T>)
        ensures
            monitor@ == (VoltageRecord { neuron_number, samples: Seq::<(TimeStep, T)>::empty() }),
    {
        VoltageMonitor { trace: Vec::new(), neuron_number }
    }
}

impl<T: Scalar> Monitor<Voltage<T>> for VoltageMonitor<T> {
    /// Appends the tick and the voltage read at it to the trace. The neuron
    /// number is kept.
    fn write(&mut self, monitored_variable: Voltage<T>, current_time: TimeStep)
        ensures
            final(self)@ == (VoltageRecord {
                samples: old(self)@.samples.push(
                    (current_time, monitored_variable.0.committed(current_time)),
                ),
                ..old(self)@
            }),
    {
        let current_value = monitored_variable.0.dynamical_get(current_time);
        self.trace.push((current_time, current_value));
    }
}

/// Where the sample of a tick stands in a dense store of `num_timesteps`
/// samples. Ticks are numbered from 1 and positions from 0, so the sample of
/// tick `t` stands at position `t - 1`; a tick outside `1..=num_timesteps` has
/// no position.
pub open spec fn position_of(tick: TimeStep, num_timesteps: usize) -> Option<usize> {
    if 1 <= tick <= num_timesteps {
        Some((tick - 1) as usize)
    } else {
        None
    }
}

/// The position of the sample of `tick` in a dense store of `num_timesteps`
/// samples, if it has one.
pub fn dataset_index(tick: TimeStep, num_timesteps: usize) -> (index: Option<usize>)
    ensures
        index == position_of(tick, num_timesteps),
{
    if 1 <= tick && tick <= num_timesteps {
        Some(tick - 1)
    } else {
        None
    }
}

} // verus!
