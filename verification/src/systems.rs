//! The systems that a tick is made of.
//!
//! Each system visits every entity that carries the components it needs and
//! leaves the others as they are. What a system does to one entity depends on
//! that entity and on the clock alone.

use crate::components::{spike_log_after, Monitor, Spike, Voltage, VoltageRecord};
use crate::dynamical_variable::{DynamicalVariable, TimeStep};
use crate::scalar::{lawful, Scalar};
use crate::world::{Attributes, EntityModel, World, WorldModel};
use vstd::prelude::*;
use vstd::std_specs::cmp::PartialOrdIs;
use vstd::std_specs::ops::{AddSpec, DivSpec, SubSpec};

verus! {

/// The systems, by name.
#[derive(Copy, Clone, Debug, PartialEq, Eq, Structural)]
pub enum SystemKind {
    StaticConductance,
    ConstantInput,
    HardThreshold,
    SpikeMonitor,
    VoltageMonitor,
}

/// Integrates the current of the static conductance into the voltage.
pub struct StaticConductanceHandler;

/// Integrates the externally injected current into the voltage.
pub struct ConstantInputHandler;

/// Emits a spike and jumps to the reset voltage where the threshold is reached.
pub struct HardThresholdHandler;

/// Records spikes.
pub struct SpikeMonitorHandler;

/// Records voltages.
pub struct VoltageMonitorHandler;

impl StaticConductanceHandler {
    /// The amount added to the voltage: current divided by capacitance.
    pub open spec fn increment<T: Scalar>(row: Attributes<T>, t: TimeStep) -> T {
        row.static_conductance.unwrap().current(row.voltage.unwrap(), t).div_spec(
            row.capacitance.unwrap().0,
        )
    }

    /// The entity carries voltage, capacitance and static conductance.
    pub open spec fn takes_part<T: Scalar>(row: Attributes<T>) -> bool {
        row.voltage.is_some() && row.capacitance.is_some() && row.static_conductance.is_some()
    }

    /// The operands are within what `T`'s operators accept.
    pub open spec fn req<T: Scalar>(row: Attributes<T>, t: TimeStep) -> bool {
        Self::takes_part(row) ==> {
            &&& row.static_conductance.unwrap().current_req(row.voltage.unwrap(), t)
            &&& row.static_conductance.unwrap().current(row.voltage.unwrap(), t).div_req(
                row.capacitance.unwrap().0,
            )
            &&& row.voltage.unwrap().0.pending(t).add_req(Self::increment(row, t))
        }
    }

    /// The entity after this system.
    pub open spec fn after<T: Scalar>(row: Attributes<T>, t: TimeStep) -> Attributes<T> {
        if Self::takes_part(row) {
            Attributes {
                voltage: Some(
                    Voltage(row.voltage.unwrap().0.after_increment(Self::increment(row, t), t)),
                ),
                ..row
            }
        } else {
            row
        }
    }

    /// Applies this system to one entity.
    pub fn update<T: Scalar>(row: Attributes<T>, current_time: TimeStep) -> (next: Attributes<T>)
        requires
            lawful::<T>(),
            current_time >= 1,
            Self::req(row, current_time),
        ensures
            next == Self::after(row, current_time),
    {
        match (row.voltage, row.capacitance, row.static_conductance) {
            (Some(voltage), Some(capacitance), Some(static_conductance)) => {
                let mut voltage = voltage;
                let current = static_conductance.get_current(&voltage, current_time);
                let voltage_increment = current / capacitance.0;
                voltage.0.dynamical_increment(voltage_increment, current_time);
                Attributes { voltage: Some(voltage), ..row }
            },
            _ => row,
        }
    }

    /// Applies this system to every entity of the world.
    pub fn run<T: Scalar>(&mut self, world: &mut World<T>)
        requires
            lawful::<T>(),
            old(world).wf(),
            old(world)@.time >= 1,
            stage_req(SystemKind::StaticConductance, old(world)@),
        ensures
            final(world).wf(),
            final(world)@ == stage_after(SystemKind::StaticConductance, old(world)@),
    {
        sweep_rows(SystemKind::StaticConductance, world);
    }
}

impl ConstantInputHandler {
    /// The amount added to the voltage: injected current divided by capacitance.
    pub open spec fn increment<T: Scalar>(row: Attributes<T>) -> T {
        row.constant_input.unwrap().0.div_spec(row.capacitance.unwrap().0)
    }

    /// The entity carries voltage, capacitance and a constant input.
    pub open spec fn takes_part<T: Scalar>(row: Attributes<T>) -> bool {
        row.voltage.is_some() && row.capacitance.is_some() && row.constant_input.is_some()
    }

    /// The operands are within what `T`'s operators accept.
    pub open spec fn req<T: Scalar>(row: Attributes<T>, t: TimeStep) -> bool {
        Self::takes_part(row) ==> {
            &&& row.constant_input.unwrap().0.div_req(row.capacitance.unwrap().0)
            &&& row.voltage.unwrap().0.pending(t).add_req(Self::increment(row))
        }
    }

    /// The entity after this system.
    pub open spec fn after<T: Scalar>(row: Attributes<T>, t: TimeStep) -> Attributes<T> {
        if Self::takes_part(row) {
            Attributes {
                voltage: Some(
                    Voltage(row.voltage.unwrap().0.after_increment(Self::increment(row), t)),
                ),
                ..row
            }
        } else {
            row
        }
    }

    /// Applies this system to one entity.
    pub fn update<T: Scalar>(row: Attributes<T>, current_time: TimeStep) -> (next: Attributes<T>)
        requires
            lawful::<T>(),
            Self::req(row, current_time),
        ensures
            next == Self::after(row, current_time),
    {
        match (row.voltage, row.capacitance, row.constant_input) {
            (Some(voltage), Some(capacitance), Some(input)) => {
                let mut voltage = voltage;
                let voltage_increment = input.0 / capacitance.0;
                voltage.0.dynamical_increment(voltage_increment, current_time);
                Attributes { voltage: Some(voltage), ..row }
            },
            _ => row,
        }
    }

    /// Applies this system to every entity of the world.
    pub fn run<T: Scalar>(&mut self, world: &mut World<T>)
        requires
            lawful::<T>(),
            old(world).wf(),
            old(world)@.time >= 1,
            stage_req(SystemKind::ConstantInput, old(world)@),
        ensures
            final(world).wf(),
            final(world)@ == stage_after(SystemKind::ConstantInput, old(world)@),
    {
        sweep_rows(SystemKind::ConstantInput, world);
    }
}

impl HardThresholdHandler {
    /// The entity carries voltage, spike, threshold and reset.
    pub open spec fn takes_part<T: Scalar>(row: Attributes<T>) -> bool {
        row.voltage.is_some() && row.spike.is_some() && row.threshold.is_some()
            && row.reset.is_some()
    }

    /// The committed voltage is at or above the threshold.
    pub open spec fn crossed<T: Scalar>(row: Attributes<T>, t: TimeStep) -> bool {
        row.voltage.unwrap().0.committed(t).is_ge(&row.threshold.unwrap().0)
    }

    /// The correction that takes the committed voltage to the reset voltage.
    pub open spec fn correction<T: Scalar>(row: Attributes<T>, t: TimeStep) -> T {
        row.reset.unwrap().0.sub_spec(row.voltage.unwrap().0.committed(t))
    }

    /// The operands are within what `T`'s operators accept.
    pub open spec fn req<T: Scalar>(row: Attributes<T>, t: TimeStep) -> bool {
        Self::takes_part(row) && Self::crossed(row, t) ==> {
            &&& row.reset.unwrap().0.sub_req(row.voltage.unwrap().0.committed(t))
            &&& row.voltage.unwrap().0.pending(t).add_req(Self::correction(row, t))
        }
    }

    /// The entity after this system: where the threshold is reached, the spike
    /// of this tick is 1 and the correction is added to the voltage; else the
    /// spike of this tick is 0 and the voltage is kept.
    pub open spec fn after<T: Scalar>(row: Attributes<T>, t: TimeStep) -> Attributes<T> {
        if !Self::takes_part(row) {
            row
        } else if Self::crossed(row, t) {
            Attributes {
                voltage: Some(
                    Voltage(row.voltage.unwrap().0.after_increment(Self::correction(row, t), t)),
                ),
                spike: Some(Spike(row.spike.unwrap().0.after_set(1, t))),
                ..row
            }
        } else {
            Attributes { spike: Some(Spike(row.spike.unwrap().0.after_set(0, t))), ..row }
        }
    }

    /// Applies this system to one entity.
    pub fn update<T: Scalar>(row: Attributes<T>, current_time: TimeStep) -> (next: Attributes<T>)
        requires
            lawful::<T>(),
            current_time >= 1,
            Self::req(row, current_time),
        ensures
            next == Self::after(row, current_time),
    {
        match (row.voltage, row.spike, row.threshold, row.reset) {
            (Some(voltage), Some(spike), Some(threshold), Some(reset)) => {
                let mut voltage = voltage;
                let mut spike = spike;
                if voltage.0.dynamical_get(current_time) >= threshold.0 {
                    let distance_to_reset = reset.0 - voltage.0.dynamical_get(current_time);
                    voltage.0.dynamical_increment(distance_to_reset, current_time);
                    spike.0.dynamical_set(1, current_time);
                } else {
                    spike.0.dynamical_set(0, current_time);
                }
                Attributes { voltage: Some(voltage), spike: Some(spike), ..row }
            },
            _ => row,
        }
    }

    /// Applies this system to every entity of the world.
    pub fn run<T: Scalar>(&mut self, world: &mut World<T>)
        requires
            lawful::<T>(),
            old(world).wf(),
            old(world)@.time >= 1,
            stage_req(SystemKind::HardThreshold, old(world)@),
        ensures
            final(world).wf(),
            final(world)@ == stage_after(SystemKind::HardThreshold, old(world)@),
    {
        sweep_rows(SystemKind::HardThreshold, world);
    }
}

impl SpikeMonitorHandler {
    /// The entity after this system: where it carries a spike and a spike
    /// monitor, the tick is appended to the log if the spike read is not zero.
    pub open spec fn after<T>(entity: EntityModel<T>, t: TimeStep) -> EntityModel<T> {
        match (entity.row.spike, entity.spike_log) {
            (Some(spike), Some(log)) => EntityModel {
                spike_log: Some(spike_log_after(log, spike, t)),
                ..entity
            },
            _ => entity,
        }
    }

    /// Applies this system to every entity of the world.
    pub fn run<T: Scalar>(&mut self, world: &mut World<T>)
        requires
            old(world).wf(),
            old(world)@.time >= 1,
        ensures
            final(world).wf(),
            final(world)@ == stage_after(SystemKind::SpikeMonitor, old(world)@),
    {
        let current_time: TimeStep = world.time.0;
        let n: usize = world.rows.len();
        let mut i: usize = 0;
        while i < n
            invariant
                i <= n,
                n == old(world).rows@.len(),
                world.wf(),
                world.time == old(world).time,
                world.delta_time == old(world).delta_time,
                world.rows == old(world).rows,
                world.voltage_monitors == old(world).voltage_monitors,
                current_time == old(world).time.0,
                current_time >= 1,
                forall|j: int|
                    0 <= j < i ==> world.entity(j) == Self::after(
                        old(world).entity(j),
                        current_time,
                    ),
                forall|j: int| i <= j < n ==> world.entity(j) == old(world).entity(j),
            decreases n - i,
        {
            let ghost before = *world;
            match world.rows[i].spike {
                Some(spike) => {
                    match &mut world.spike_monitors[i] {
                        Some(monitor) => {
                            monitor.write(spike, current_time);
                        },
                        None => {},
                    }
                },
                None => {},
            }
            proof {
                assert forall|j: int| 0 <= j < n && j != i implies world.entity(j)
                    == before.entity(j) by {}
            }
            i += 1;
        }
        proof {
            assert(world@.entities =~= stage_after(SystemKind::SpikeMonitor, old(world)@).entities);
        }
    }
}

impl VoltageMonitorHandler {
    /// The entity after this system: where it carries a voltage and a voltage
    /// monitor, the tick and the voltage read at it are appended to the trace.
    pub open spec fn after<T: Scalar>(entity: EntityModel<T>, t: TimeStep) -> EntityModel<T> {
        match (entity.row.voltage, entity.trace) {
            (Some(voltage), Some(record)) => EntityModel {
                trace: Some(
                    VoltageRecord {
                        samples: record.samples.push((t, voltage.0.committed(t))),
                        ..record
                    },
                ),
                ..entity
            },
            _ => entity,
        }
    }

    /// Applies this system to every entity of the world.
    pub fn run<T: Scalar>(&mut self, world: &mut World<T>)
        requires
            old(world).wf(),
            old(world)@.time >= 1,
        ensures
            final(world).wf(),
            final(world)@ == stage_after(SystemKind::VoltageMonitor, old(world)@),
    {
        let current_time: TimeStep = world.time.0;
        let n: usize = world.rows.len();
        let mut i: usize = 0;
        while i < n
            invariant
                i <= n,
                n == old(world).rows@.len(),
                world.wf(),
                world.time == old(world).time,
                world.delta_time == old(world).delta_time,
                world.rows == old(world).rows,
                world.spike_monitors == old(world).spike_monitors,
                current_time == old(world).time.0,
                current_time >= 1,
                forall|j: int|
                    0 <= j < i ==> world.entity(j) == Self::after(
                        old(world).entity(j),
                        current_time,
                    ),
                forall|j: int| i <= j < n ==> world.entity(j) == old(world).entity(j),
            decreases n - i,
        {
            let ghost before = *world;
            match world.rows[i].voltage {
                Some(voltage) => {
                    match &mut world.voltage_monitors[i] {
                        Some(monitor) => {
                            monitor.write(voltage, current_time);
                        },
                        None => {},
                    }
                },
                None => {},
            }
            proof {
                assert forall|j: int| 0 <= j < n && j != i implies world.entity(j)
                    == before.entity(j) by {}
            }
            i += 1;
        }
        proof {
            assert(world@.entities =~= stage_after(
                SystemKind::VoltageMonitor,
                old(world)@,
            ).entities);
        }
    }
}

/// The operands that `kind` meets at one entity are within what `T`'s
/// operators accept.
pub open spec fn entity_req<T: Scalar>(
    kind: SystemKind,
    entity: EntityModel<T>,
    t: TimeStep,
) -> bool {
    match kind {
        SystemKind::StaticConductance => StaticConductanceHandler::req(entity.row, t),
        SystemKind::ConstantInput => ConstantInputHandler::req(entity.row, t),
        SystemKind::HardThreshold => HardThresholdHandler::req(entity.row, t),
        SystemKind::SpikeMonitor => true,
        SystemKind::VoltageMonitor => true,
    }
}

/// One entity after system `kind` ran at tick `t`.
pub open spec fn entity_after<T: Scalar>(
    kind: SystemKind,
    entity: EntityModel<T>,
    t: TimeStep,
) -> EntityModel<T> {
    match kind {
        SystemKind::StaticConductance => EntityModel {
            row: StaticConductanceHandler::after(entity.row, t),
            ..entity
        },
        SystemKind::ConstantInput => EntityModel {
            row: ConstantInputHandler::after(entity.row, t),
            ..entity
        },
        SystemKind::HardThreshold => EntityModel {
            row: HardThresholdHandler::after(entity.row, t),
            ..entity
        },
        SystemKind::SpikeMonitor => SpikeMonitorHandler::after(entity, t),
        SystemKind::VoltageMonitor => VoltageMonitorHandler::after(entity, t),
    }
}

/// System `kind` can run on every entity of the world.
pub open spec fn stage_req<T: Scalar>(kind: SystemKind, world: WorldModel<T>) -> bool {
    forall|i: int|
        0 <= i < world.entities.len() ==> entity_req(kind, #[trigger] world.entities[i], world.time)
}

/// The world after system `kind`: every entity after it, the clock as it was.
pub open spec fn stage_after<T: Scalar>(kind: SystemKind, world: WorldModel<T>) -> WorldModel<T> {
    WorldModel {
        entities: Seq::new(
            world.entities.len(),
            |i: int| entity_after(kind, world.entities[i], world.time),
        ),
        ..world
    }
}

/// Applies one of the three systems that update voltages and spikes to every
/// row.
fn sweep_rows<T: Scalar>(kind: SystemKind, world: &mut World<T>)
    requires
        lawful::<T>(),
        old(world).wf(),
        old(world)@.time >= 1,
        kind != SystemKind::SpikeMonitor,
        kind != SystemKind::VoltageMonitor,
        stage_req(kind, old(world)@),
    ensures
        final(world).wf(),
        final(world)@ == stage_after(kind, old(world)@),
{
    let current_time: TimeStep = world.time.0;
    let n: usize = world.rows.len();
    let mut i: usize = 0;
    while i < n
        invariant
            i <= n,
            n == old(world).rows@.len(),
            world.rows@.len() == n,
            world.time == old(world).time,
            world.delta_time == old(world).delta_time,
            world.spike_monitors == old(world).spike_monitors,
            world.voltage_monitors == old(world).voltage_monitors,
            old(world).wf(),
            current_time == old(world).time.0,
            current_time >= 1,
            lawful::<T>(),
            kind != SystemKind::SpikeMonitor,
            kind != SystemKind::VoltageMonitor,
            stage_req(kind, old(world)@),
            forall|j: int|
                0 <= j < i ==> world.entity(j) == entity_after(
                    kind,
                    old(world).entity(j),
                    current_time,
                ),
            forall|j: int| i <= j < n ==> world.rows@[j] == old(world).rows@[j],
        decreases n - i,
    {
        let row = world.rows[i];
        let ghost before = *world;
        proof {
            let at: int = i as int;
            assert(entity_req(kind, old(world)@.entities[at], current_time));
        }
        let next = match kind {
            SystemKind::StaticConductance => StaticConductanceHandler::update(row, current_time),
            SystemKind::ConstantInput => ConstantInputHandler::update(row, current_time),
            _ => HardThresholdHandler::update(row, current_time),
        };
        world.rows[i] = next;
        proof {
            let at: int = i as int;
            assert(world.entity(at) == entity_after(kind, old(world).entity(at), current_time));
            assert forall|j: int| 0 <= j < at implies world.entity(j) == entity_after(
                kind,
                old(world).entity(j),
                current_time,
            ) by {
                assert(world.entity(j) == before.entity(j));
            }
        }
        i += 1;
    }
    proof {
        assert(world@.entities =~= stage_after(kind, old(world)@).entities);
    }
}

} // verus!
