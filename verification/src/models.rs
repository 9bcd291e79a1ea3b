//! A self-contained leaky integrate-and-fire neuron.

use crate::scalar::{lawful, Scalar};
use core::ops::Neg;
use vstd::prelude::*;
use vstd::std_specs::cmp::PartialOrdIs;
use vstd::std_specs::ops::{AddSpec, DivSpec, MulSpec, NegSpec, SubSpec};

verus! {

/// A neuron that integrates a current and fires.
pub trait IntegrateAndFire<T>: Sized {
    /// The operands of a step are within what `T`'s operators accept.
    spec fn integrate_req(&self, current: T, time_step: T) -> bool;

    /// The neuron after a step of length `time_step` under `current`.
    spec fn integrated(&self, current: T, time_step: T) -> Self;

    /// The comparison of voltage and threshold can be made.
    spec fn sample_req(&self) -> bool;

    /// The neuron after its firing state was sampled.
    spec fn sampled(&self) -> Self;

    fn integrate(&mut self, current: T, time_step: T)
        requires
            old(self).integrate_req(current, time_step),
        ensures
            *final(self) == old(self).integrated(current, time_step),
    ;

    fn sample_spiking_process(&mut self)
        requires
            old(self).sample_req(),
        ensures
            *final(self) == old(self).sampled(),
    ;
}

/// A leaky integrate-and-fire neuron with a single leak conductance.
#[derive(Copy, Clone)]
pub struct LeakyIntegrateAndFire<T> {
    pub voltage: T,
    pub is_firing: bool,
    pub threshold: T,
    pub reset_voltage: T,
    pub leak_conductance: T,
    pub capacitance: T,
    pub equilibrium_voltage: T,
}

impl<T: Scalar + Neg<Output = T>> LeakyIntegrateAndFire<T> {
    /// The leak current: minus the conductance, times the distance of the
    /// voltage from equilibrium.
    pub open spec fn leak(self) -> T {
        self.leak_conductance.neg_spec().mul_spec(self.voltage.sub_spec(self.equilibrium_voltage))
    }

    /// Rate of change of the voltage under `current`: leak plus current, over
    /// the capacitance.
    pub open spec fn voltage_derivative(self, current: T) -> T {
        self.leak().add_spec(current).div_spec(self.capacitance)
    }
}

impl<T: Scalar + Neg<Output = T>> IntegrateAndFire<T> for LeakyIntegrateAndFire<T> {
    open spec fn integrate_req(&self, current: T, time_step: T) -> bool {
        &&& lawful::<T>()
        &&& T::obeys_neg_spec()
        &&& !self.is_firing ==> {
            &&& self.leak_conductance.neg_req()
            &&& self.voltage.sub_req(self.equilibrium_voltage)
            &&& self.leak_conductance.neg_spec().mul_req(
                self.voltage.sub_spec(self.equilibrium_voltage),
            )
            &&& self.leak().add_req(current)
            &&& self.leak().add_spec(current).div_req(self.capacitance)
            &&& self.voltage_derivative(current).mul_req(time_step)
            &&& self.voltage.add_req(self.voltage_derivative(current).mul_spec(time_step))
        }
    }

    /// A firing neuron jumps to its reset voltage and stops firing; any other
    /// takes one Euler step.
    open spec fn integrated(&self, current: T, time_step: T) -> Self {
        if self.is_firing {
            LeakyIntegrateAndFire { voltage: self.reset_voltage, is_firing: false, ..*self }
        } else {
            LeakyIntegrateAndFire {
                voltage: self.voltage.add_spec(
                    self.voltage_derivative(current).mul_spec(time_step),
                ),
                ..*self
            }
        }
    }

    open spec fn sample_req(&self) -> bool {
        lawful::<T>()
    }

    /// The neuron fires exactly if its voltage is at or above the threshold.
    open spec fn sampled(&self) -> Self {
        LeakyIntegrateAndFire { is_firing: self.voltage.is_ge(&self.threshold), ..*self }
    }

    fn integrate(&mut self, current: T, time_step: T) {
        if self.is_firing {
            self.voltage = self.reset_voltage;
            self.is_firing = false;
        } else {
            let voltage_derivative = (self.leak_conductance.neg() * (self.voltage
                - self.equilibrium_voltage) + current) / self.capacitance;
            self.voltage = self.voltage + voltage_derivative * time_step;
        }
    }

    fn sample_spiking_process(&mut self) {
        if self.voltage >= self.threshold {
            self.is_firing = true;
        } else {
            self.is_firing = false;
        }
    }
}

} // verus!
