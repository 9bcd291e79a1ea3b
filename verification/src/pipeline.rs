//! The order of the systems within a tick, and what a tick and a run make of
//! a world.

use crate::dynamical_variable::next_tick;
use crate::error::ConfigError;
use crate::scalar::{lawful, Scalar};
use crate::systems::{
    stage_after, stage_req, ConstantInputHandler, HardThresholdHandler, SpikeMonitorHandler,
    StaticConductanceHandler, SystemKind, VoltageMonitorHandler,
};
use crate::world::{World, WorldModel};
use vstd::prelude::*;

verus! {

/// Where a system stands in a tick: current sources, then thresholds, then
/// monitors.
pub open spec fn rank(kind: SystemKind) -> int {
    match kind {
        SystemKind::StaticConductance => 0,
        SystemKind::ConstantInput => 0,
        SystemKind::HardThreshold => 1,
        SystemKind::SpikeMonitor => 2,
        SystemKind::VoltageMonitor => 2,
    }
}

/// No system stands before one of a lower rank.
pub open spec fn ordered(stages: Seq<SystemKind>) -> bool {
    forall|i: int, j: int| 0 <= i < j < stages.len() ==> rank(stages[i]) <= rank(stages[j])
}

/// Every system from index `from` on can run, each on the world that the ones
/// before it left.
pub open spec fn dispatch_req<T: Scalar>(
    stages: Seq<SystemKind>,
    from: int,
    world: WorldModel<T>,
) -> bool
    decreases stages.len() - from,
{
    if 0 <= from < stages.len() {
        &&& stage_req(stages[from], world)
        &&& dispatch_req(stages, from + 1, stage_after(stages[from], world))
    } else {
        true
    }
}

/// The world after the systems from index `from` on ran in their order.
pub open spec fn dispatch_after<T: Scalar>(
    stages: Seq<SystemKind>,
    from: int,
    world: WorldModel<T>,
) -> WorldModel<T>
    decreases stages.len() - from,
{
    if 0 <= from < stages.len() {
        dispatch_after(stages, from + 1, stage_after(stages[from], world))
    } else {
        world
    }
}

/// The world with its clock advanced by one tick.
pub open spec fn advanced<T>(world: WorldModel<T>) -> WorldModel<T> {
    WorldModel { time: next_tick(world.time), ..world }
}

/// The world after one tick: all systems, then the clock.
pub open spec fn tick_after<T: Scalar>(
    stages: Seq<SystemKind>,
    world: WorldModel<T>,
) -> WorldModel<T> {
    advanced(dispatch_after(stages, 0, world))
}

/// Each of the next `ticks` ticks can run.
pub open spec fn run_req<T: Scalar>(
    stages: Seq<SystemKind>,
    world: WorldModel<T>,
    ticks: nat,
) -> bool
    decreases ticks,
{
    if ticks == 0 {
        true
    } else {
        &&& dispatch_req(stages, 0, world)
        &&& run_req(stages, tick_after(stages, world), (ticks - 1) as nat)
    }
}

/// The world after `ticks` ticks.
pub open spec fn run_after<T: Scalar>(
    stages: Seq<SystemKind>,
    world: WorldModel<T>,
    ticks: nat,
) -> WorldModel<T>
    decreases ticks,
{
    if ticks == 0 {
        world
    } else {
        run_after(stages, tick_after(stages, world), (ticks - 1) as nat)
    }
}

/// How often `kind` stands among the systems from index `from` on.
pub open spec fn occurrences(stages: Seq<SystemKind>, from: int, kind: SystemKind) -> nat
    decreases stages.len() - from,
{
    if 0 <= from < stages.len() {
        if stages[from] == kind {
            1 + occurrences(stages, from + 1, kind)
        } else {
            occurrences(stages, from + 1, kind)
        }
    } else {
        0
    }
}

/// How many voltage samples a tick of the pipeline records for an entity
/// that has a voltage and a voltage monitor.
pub open spec fn samples_per_tick(stages: Seq<SystemKind>) -> nat {
    occurrences(stages, 0, SystemKind::VoltageMonitor)
}

/// The rank of a system, as a number.
pub fn rank_of(kind: SystemKind) -> (r: u8)
    ensures
        r == rank(kind),
{
    match kind {
        SystemKind::StaticConductance => 0,
        SystemKind::ConstantInput => 0,
        SystemKind::HardThreshold => 1,
        SystemKind::SpikeMonitor => 2,
        SystemKind::VoltageMonitor => 2,
    }
}

/// The systems of a tick, in the order in which they run.
pub struct Dispatcher {
    stages: Vec<SystemKind>,
}

impl View for Dispatcher {
    type V = Seq<SystemKind>;

    closed spec fn view(&self) -> Seq<SystemKind> {
        self.stages@
    }
}

impl Dispatcher {
    /// A pipeline of the given systems, which is refused unless every current
    /// source stands before every threshold, and every threshold before every
    /// monitor.
    pub fn new(stages: Vec<SystemKind>) -> (made: Result<Dispatcher, ConfigError>)
        ensures
            match made {
                Ok(dispatcher) => ordered(stages@) && dispatcher@ == stages@,
                Err(error) => !ordered(stages@) && error == ConfigError::OutOfOrder,
            },
    {
        let n: usize = stages.len();
        let mut last: u8 = 0;
        let mut i: usize = 0;
        while i < n
            invariant
                i <= n,
                n == stages@.len(),
                forall|a: int, b: int| 0 <= a < b < i ==> rank(stages@[a]) <= rank(stages@[b]),
                forall|a: int| 0 <= a < i ==> rank(stages@[a]) <= last,
                i > 0 ==> last == rank(stages@[i - 1]),
                i == 0 ==> last == 0,
            decreases n - i,
        {
            let here: u8 = rank_of(stages[i]);
            if here < last {
                proof {
                    assert(rank(stages@[i - 1]) > rank(stages@[i as int]));
                }
                return Err(ConfigError::OutOfOrder);
            }
            last = here;
            i += 1;
        }
        Ok(Dispatcher { stages })
    }

    /// How often `kind` runs in a tick.
    pub fn count(&self, kind: SystemKind) -> (times: usize)
        ensures
            times == occurrences(self@, 0, kind),
    {
        let n: usize = self.stages.len();
        let mut times: usize = 0;
        let mut i: usize = n;
        while i > 0
            invariant
                i <= n,
                n == self@.len(),
                times <= n - i,
                times == occurrences(self@, i as int, kind),
            decreases i,
        {
            i -= 1;
            if self.stages[i] == kind {
                times += 1;
            }
        }
        times
    }

    /// Tells whether a tick records exactly one voltage sample for every
    /// entity that has a voltage and a voltage monitor.
    pub fn records_each_tick_once(&self) -> (once: bool)
        ensures
            once == (samples_per_tick(self@) == 1),
    {
        self.count(SystemKind::VoltageMonitor) == 1
    }

    /// Runs the systems of one tick on the world, in their order.
    pub fn dispatch<T: Scalar>(&self, world: &mut World<T>)
        requires
            lawful::<T>(),
            old(world).wf(),
            old(world)@.time >= 1,
            dispatch_req(self@, 0, old(world)@),
        ensures
            final(world).wf(),
            final(world)@ == dispatch_after(self@, 0, old(world)@),
            final(world)@.time == old(world)@.time,
            final(world)@.entities.len() == old(world)@.entities.len(),
    {
        let n: usize = self.stages.len();
        let mut i: usize = 0;
        while i < n
            invariant
                i <= n,
                n == self@.len(),
                lawful::<T>(),
                world.wf(),
                world@.time == old(world)@.time,
                world@.entities.len() == old(world)@.entities.len(),
                world@.time >= 1,
                dispatch_req(self@, i as int, world@),
                dispatch_after(self@, i as int, world@) == dispatch_after(self@, 0, old(world)@),
            decreases n - i,
        {
            match self.stages[i] {
                SystemKind::StaticConductance => {
                    let mut system = StaticConductanceHandler;
                    system.run(world);
                },
                SystemKind::ConstantInput => {
                    let mut system = ConstantInputHandler;
                    system.run(world);
                },
                SystemKind::HardThreshold => {
                    let mut system = HardThresholdHandler;
                    system.run(world);
                },
                SystemKind::SpikeMonitor => {
                    let mut system = SpikeMonitorHandler;
                    system.run(world);
                },
                SystemKind::VoltageMonitor => {
                    let mut system = VoltageMonitorHandler;
                    system.run(world);
                },
            }
            i += 1;
        }
    }
}

} // verus!
