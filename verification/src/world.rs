//! The entity/component store.
//!
//! Entities are indices into parallel tables. A row of the attribute table
//! holds the copyable components of one entity; the two monitor tables hold
//! what was recorded for it.

use crate::components::{
    Capacitance, ConstantInput, HardThreshold, Spike, SpikeMonitor, StaticConductance, Voltage,
    VoltageMonitor, VoltageRecord, VoltageReset,
};
use crate::dynamical_variable;
use crate::resources::{DeltaTime, TimeStep};
use vstd::prelude::*;

verus! {

/// Identity of an entity: its index in the tables of the world that made it.
#[derive(Copy, Clone, Debug)]
pub struct Entity(pub usize);

/// The copyable components of one entity, each of them optional.
#[derive(Copy, Clone)]
pub struct Attributes<T> {
    pub voltage: Option<Voltage<T>>,
    pub capacitance: Option<Capacitance<T>>,
    pub static_conductance: Option<StaticConductance<T>>,
    pub threshold: Option<HardThreshold<T>>,
    pub reset: Option<VoltageReset<T>>,
    pub spike: Option<Spike>,
    pub constant_input: Option<ConstantInput<T>>,
}

/// The store: the clock and the component tables.
pub struct World<T> {
    pub time: TimeStep,
    pub delta_time: Option<DeltaTime<T>>,
    pub rows: Vec<Attributes<T>>,
    pub spike_monitors: Vec<Option<SpikeMonitor>>,
    pub voltage_monitors: Vec<Option<VoltageMonitor<T>>>,
}

/// All that the world holds of one entity.
pub struct EntityModel<T> {
    pub row: Attributes<T>,
    /// The spike ticks recorded so far, where the entity has a spike monitor.
    pub spike_log: Option<Seq<dynamical_variable::TimeStep>>,
    /// The number of the entity's voltage monitor and the samples recorded so
    /// far, where it has one.
    pub trace: Option<VoltageRecord<T>>,
}

/// The mathematical content of a world.
pub struct WorldModel<T> {
    pub time: dynamical_variable::TimeStep,
    pub delta_time: Option<DeltaTime<T>>,
    pub entities: Seq<EntityModel<T>>,
}

/// The log of a spike monitor slot.
pub open spec fn spike_log_of(
    slot: Option<SpikeMonitor>,
) -> Option<Seq<dynamical_variable::TimeStep>> {
    match slot {
        Some(monitor) => Some(monitor.events@),
        None => None,
    }
}

/// The record of a voltage monitor slot.
pub open spec fn trace_of<T>(slot: Option<VoltageMonitor<T>>) -> Option<VoltageRecord<T>> {
    match slot {
        Some(monitor) => Some(monitor@),
        None => None,
    }
}

impl<T> World<T> {
    /// The three tables have one row per entity.
    pub open spec fn wf(&self) -> bool {
        &&& self.spike_monitors@.len() == self.rows@.len()
        &&& self.voltage_monitors@.len() == self.rows@.len()
    }

    /// What the world holds of entity `i`.
    pub open spec fn entity(&self, i: int) -> EntityModel<T> {
        EntityModel {
            row: self.rows@[i],
            spike_log: spike_log_of(self.spike_monitors@[i]),
            trace: trace_of(self.voltage_monitors@[i]),
        }
    }

    /// An empty world whose clock has not been installed.
    pub fn new() -> (world: World<T>)
        ensures
            world.wf(),
            world@.entities.len() == 0,
            world.time == TimeStep(0),
            world.delta_time.is_none(),
    {
        World {
            time: TimeStep(0),
            delta_time: None,
            rows: Vec::new(),
            spike_monitors: Vec::new(),
            voltage_monitors: Vec::new(),
        }
    }

    /// Number of entities.
    pub fn len(&self) -> (n: usize)
        ensures
            n == self@.entities.len(),
    {
        self.rows.len()
    }

    /// Adds an entity with the given components and monitors, after all
    /// others, and returns its identity. The entities that were there are
    /// kept as they are.
    pub fn create_entity(
        &mut self,
        row: Attributes<T>,
        spike_monitor: Option<SpikeMonitor>,
        voltage_monitor: Option<VoltageMonitor<T>>,
    ) -> (entity: Entity)
        requires
            old(self).wf(),
        ensures
            final(self).wf(),
            entity.0 == old(self)@.entities.len(),
            final(self).rows@ == old(self).rows@.push(row),
            final(self).spike_monitors@ == old(self).spike_monitors@.push(spike_monitor),
            final(self).voltage_monitors@ == old(self).voltage_monitors@.push(voltage_monitor),
            final(self)@ == (WorldModel {
                entities: old(self)@.entities.push(
                    EntityModel {
                        row,
                        spike_log: spike_log_of(spike_monitor),
                        trace: trace_of(voltage_monitor),
                    },
                ),
                ..old(self)@
            }),
    {
        let index: usize = self.rows.len();
        self.rows.push(row);
        self.spike_monitors.push(spike_monitor);
        self.voltage_monitors.push(voltage_monitor);
        proof {
            assert(final(self)@.entities =~= old(self)@.entities.push(
                EntityModel {
                    row,
                    spike_log: spike_log_of(spike_monitor),
                    trace: trace_of(voltage_monitor),
                },
            ));
        }
        Entity(index)
    }
}

impl<T: Copy> World<T> {
    /// Gives an entity a constant input, in place of any it had, and tells
    /// whether the world holds that entity. If it does not, the world is left
    /// as it was.
    pub fn insert_constant_input(
        &mut self,
        entity: Entity,
        input: ConstantInput<T>,
    ) -> (found: bool)
        requires
            old(self).wf(),
        ensures
            final(self).wf(),
            found == (entity.0 < old(self)@.entities.len()),
            found ==> final(self)@ == (WorldModel {
                entities: old(self)@.entities.update(
                    entity.0 as int,
                    EntityModel {
                        row: Attributes {
                            constant_input: Some(input),
                            ..old(self)@.entities[entity.0 as int].row
                        },
                        ..old(self)@.entities[entity.0 as int]
                    },
                ),
                ..old(self)@
            }),
            !found ==> final(self)@ == old(self)@,
    {
        if entity.0 < self.rows.len() {
            let mut row = self.rows[entity.0];
            row.constant_input = Some(input);
            self.rows[entity.0] = row;
            proof {
                assert(final(self)@.entities =~= old(self)@.entities.update(
                    entity.0 as int,
                    EntityModel {
                        row: Attributes {
                            constant_input: Some(input),
                            ..old(self)@.entities[entity.0 as int].row
                        },
                        ..old(self)@.entities[entity.0 as int]
                    },
                ));
            }
            true
        } else {
            false
        }
    }
}

impl<T> View for World<T> {
    type V = WorldModel<T>;

    open spec fn view(&self) -> WorldModel<T> {
        WorldModel {
            time: self.time.0,
            delta_time: self.delta_time,
            entities: Seq::new(self.rows@.len(), |i: int| self.entity(i)),
        }
    }
}

} // verus!
