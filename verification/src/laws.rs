//! What holds of the systems and of a run, whatever the world.

use crate::dynamical_variable::{next_tick, TimeStep};
use crate::components::position_of;
use crate::factories::LIFParameters;
use crate::pipeline::{dispatch_after, occurrences, run_after, samples_per_tick, tick_after};
use crate::scalar::Scalar;
use crate::systems::{
    entity_after, stage_after, ConstantInputHandler, HardThresholdHandler,
    StaticConductanceHandler, SystemKind,
};
use crate::world::{Attributes, EntityModel, WorldModel};
use vstd::prelude::*;
use vstd::std_specs::ops::{AddSpec, DivSpec, MulSpec, SubSpec};

verus! {

/// One entity after the systems from index `from` on ran at tick `t`.
pub open spec fn entity_dispatch<T: Scalar>(
    stages: Seq<SystemKind>,
    from: int,
    entity: EntityModel<T>,
    t: TimeStep,
) -> EntityModel<T>
    decreases stages.len() - from,
{
    if 0 <= from < stages.len() {
        entity_dispatch(stages, from + 1, entity_after(stages[from], entity, t), t)
    } else {
        entity
    }
}

/// One entity after `ticks` ticks, the first of them being tick `t`.
pub open spec fn entity_run<T: Scalar>(
    stages: Seq<SystemKind>,
    entity: EntityModel<T>,
    t: TimeStep,
    ticks: nat,
) -> EntityModel<T>
    decreases ticks,
{
    if ticks == 0 {
        entity
    } else {
        entity_run(stages, entity_dispatch(stages, 0, entity, t), next_tick(t), (ticks - 1) as nat)
    }
}

/// What is read at tick `t`: the committed voltage and the committed spike.
pub open spec fn readings<T: Scalar>(
    row: Attributes<T>,
    t: TimeStep,
) -> (Option<T>, Option<usize>) {
    (
        match row.voltage {
            Some(voltage) => Some(voltage.0.committed(t)),
            None => None,
        },
        match row.spike {
            Some(spike) => Some(spike.0.committed(t)),
            None => None,
        },
    )
}

/// No system changes what is read at the tick at which it runs: whatever the
/// order of the systems, every read of a tick observes what was committed
/// before that tick.
pub proof fn lemma_reads_are_stable<T: Scalar>(
    stages: Seq<SystemKind>,
    from: int,
    entity: EntityModel<T>,
    t: TimeStep,
)
    requires
        t >= 1,
    ensures
        forall|kind: SystemKind|
            readings(#[trigger] entity_after(kind, entity, t).row, t) == readings(entity.row, t),
        readings(entity_dispatch(stages, from, entity, t).row, t) == readings(entity.row, t),
    decreases stages.len() - from,
{
    assert forall|kind: SystemKind|
        readings(#[trigger] entity_after(kind, entity, t).row, t) == readings(
            entity.row,
            t,
        ) by {
        lemma_one_system_keeps_readings(kind, entity, t);
    }
    if 0 <= from < stages.len() {
        let next = entity_after(stages[from], entity, t);
        lemma_one_system_keeps_readings(stages[from], entity, t);
        lemma_reads_are_stable(stages, from + 1, next, t);
    }
}

/// One system keeps what is read at the tick at which it runs.
pub proof fn lemma_one_system_keeps_readings<T: Scalar>(
    kind: SystemKind,
    entity: EntityModel<T>,
    t: TimeStep,
)
    requires
        t >= 1,
    ensures
        readings(entity_after(kind, entity, t).row, t) == readings(entity.row, t),
{
}

/// The systems of a tick keep the clock and the number of entities, and what
/// they make of an entity depends on that entity and the clock alone.
pub proof fn lemma_dispatch_is_local<T: Scalar>(
    stages: Seq<SystemKind>,
    from: int,
    world: WorldModel<T>,
)
    ensures
        dispatch_after(stages, from, world).time == world.time,
        dispatch_after(stages, from, world).delta_time == world.delta_time,
        dispatch_after(stages, from, world).entities.len() == world.entities.len(),
        forall|i: int|
            0 <= i < world.entities.len() ==> #[trigger] dispatch_after(
                stages,
                from,
                world,
            ).entities[i] == entity_dispatch(stages, from, world.entities[i], world.time),
    decreases stages.len() - from,
{
    if 0 <= from < stages.len() {
        lemma_dispatch_is_local(stages, from + 1, stage_after(stages[from], world));
    }
}

/// A run keeps the number of entities, and what it makes of an entity depends
/// on that entity and the clock alone.
pub proof fn lemma_run_is_local<T: Scalar>(
    stages: Seq<SystemKind>,
    world: WorldModel<T>,
    ticks: nat,
)
    ensures
        run_after(stages, world, ticks).entities.len() == world.entities.len(),
        run_after(stages, world, ticks).delta_time == world.delta_time,
        forall|i: int|
            0 <= i < world.entities.len() ==> #[trigger] run_after(
                stages,
                world,
                ticks,
            ).entities[i] == entity_run(stages, world.entities[i], world.time, ticks),
    decreases ticks,
{
    if ticks > 0 {
        lemma_dispatch_is_local(stages, 0, world);
        lemma_run_is_local(stages, tick_after(stages, world), (ticks - 1) as nat);
    }
}

/// Two entities are alike: they have the same components and the same spike
/// log, and both or neither have a voltage monitor, with the same samples.
/// The numbers of their monitors may differ.
pub open spec fn alike<T>(a: EntityModel<T>, b: EntityModel<T>) -> bool {
    &&& a.row == b.row
    &&& a.spike_log == b.spike_log
    &&& a.trace.is_some() == b.trace.is_some()
    &&& a.trace.is_some() ==> a.trace.unwrap().samples == b.trace.unwrap().samples
}

/// The systems of a tick keep two entities alike.
pub proof fn lemma_dispatch_keeps_alike<T: Scalar>(
    stages: Seq<SystemKind>,
    from: int,
    a: EntityModel<T>,
    b: EntityModel<T>,
    t: TimeStep,
)
    requires
        alike(a, b),
    ensures
        alike(entity_dispatch(stages, from, a, t), entity_dispatch(stages, from, b, t)),
    decreases stages.len() - from,
{
    if 0 <= from < stages.len() {
        lemma_dispatch_keeps_alike(
            stages,
            from + 1,
            entity_after(stages[from], a, t),
            entity_after(stages[from], b, t),
            t,
        );
    }
}

/// A run keeps two entities alike.
pub proof fn lemma_run_keeps_alike<T: Scalar>(
    stages: Seq<SystemKind>,
    a: EntityModel<T>,
    b: EntityModel<T>,
    t: TimeStep,
    ticks: nat,
)
    requires
        alike(a, b),
    ensures
        alike(entity_run(stages, a, t, ticks), entity_run(stages, b, t, ticks)),
    decreases ticks,
{
    if ticks > 0 {
        lemma_dispatch_keeps_alike(stages, 0, a, b, t);
        lemma_run_keeps_alike(
            stages,
            entity_dispatch(stages, 0, a, t),
            entity_dispatch(stages, 0, b, t),
            next_tick(t),
            (ticks - 1) as nat,
        );
    }
}

/// No entity interferes with another: two entities that start a run with the
/// same components and the same records end it with the same components, the
/// same voltage samples and the same spike log, whatever else the world holds.
pub proof fn lemma_no_interference<T: Scalar>(
    stages: Seq<SystemKind>,
    world: WorldModel<T>,
    ticks: nat,
    i: int,
    j: int,
)
    requires
        0 <= i < world.entities.len(),
        0 <= j < world.entities.len(),
        alike(world.entities[i], world.entities[j]),
    ensures
        alike(
            run_after(stages, world, ticks).entities[i],
            run_after(stages, world, ticks).entities[j],
        ),
{
    lemma_run_is_local(stages, world, ticks);
    lemma_run_keeps_alike(stages, world.entities[i], world.entities[j], world.time, ticks);
}

/// The sample that each voltage monitor system of tick `t` records for an
/// entity: the tick, and the voltage that is read at it.
pub open spec fn sample_of<T: Scalar>(entity: EntityModel<T>, t: TimeStep) -> (TimeStep, T) {
    (t, entity.row.voltage.unwrap().0.committed(t))
}

/// The systems of a tick keep the voltage, the spike log and the voltage
/// monitor of an entity where it has them, and the number of the monitor.
/// To the samples of an entity that has a voltage they append the sample of
/// the tick, once for every voltage monitor system.
pub proof fn lemma_dispatch_samples<T: Scalar>(
    stages: Seq<SystemKind>,
    from: int,
    entity: EntityModel<T>,
    t: TimeStep,
)
    requires
        t >= 1,
    ensures
        entity_dispatch(stages, from, entity, t).row.voltage.is_some()
            == entity.row.voltage.is_some(),
        entity_dispatch(stages, from, entity, t).spike_log.is_some() == entity.spike_log.is_some(),
        entity_dispatch(stages, from, entity, t).trace.is_some() == entity.trace.is_some(),
        entity.trace.is_some() ==> entity_dispatch(
            stages,
            from,
            entity,
            t,
        ).trace.unwrap().neuron_number == entity.trace.unwrap().neuron_number,
        entity.row.voltage.is_some() && entity.trace.is_some() ==> entity_dispatch(
            stages,
            from,
            entity,
            t,
        ).trace.unwrap().samples == entity.trace.unwrap().samples + Seq::new(
            occurrences(stages, from, SystemKind::VoltageMonitor),
            |k: int| sample_of(entity, t),
        ),
    decreases stages.len() - from,
{
    let count = occurrences(stages, from, SystemKind::VoltageMonitor);
    if 0 <= from < stages.len() {
        let next = entity_after(stages[from], entity, t);
        lemma_one_system_keeps_readings(stages[from], entity, t);
        lemma_dispatch_samples(stages, from + 1, next, t);
        if entity.row.voltage.is_some() && entity.trace.is_some() {
            let rest = occurrences(stages, from + 1, SystemKind::VoltageMonitor);
            assert(sample_of(next, t) == sample_of(entity, t));
            assert(next.trace.unwrap().samples + Seq::new(rest, |k: int| sample_of(next, t))
                =~= entity.trace.unwrap().samples + Seq::new(
                count,
                |k: int| sample_of(entity, t),
            ));
        }
    } else {
        if entity.trace.is_some() {
            assert(entity.trace.unwrap().samples + Seq::new(count, |k: int| sample_of(entity, t))
                =~= entity.trace.unwrap().samples);
        }
    }
}

/// The record `after` holds what `before` held and then one sample for each
/// of `ticks` ticks, the first of them `t`: the sample of the `k`-th of these
/// ticks is the tick `t + k` with the voltage that the entity reads at it.
pub open spec fn recorded_every_tick<T: Scalar>(
    stages: Seq<SystemKind>,
    entity: EntityModel<T>,
    t: TimeStep,
    ticks: nat,
    after: EntityModel<T>,
) -> bool {
    &&& after.trace.is_some()
    &&& after.trace.unwrap().neuron_number == entity.trace.unwrap().neuron_number
    &&& after.trace.unwrap().samples.len() == entity.trace.unwrap().samples.len() + ticks
    &&& forall|i: int|
        0 <= i < entity.trace.unwrap().samples.len() ==> after.trace.unwrap().samples[i]
            == entity.trace.unwrap().samples[i]
    &&& forall|k: int|
        0 <= k < ticks ==> #[trigger] after.trace.unwrap().samples[
            entity.trace.unwrap().samples.len() + k
        ] == sample_of(entity_run(stages, entity, t, k as nat), (t + k) as usize)
}

/// A run of a pipeline that records voltages once per tick appends to the
/// samples of an entity that has a voltage and a voltage monitor exactly one
/// sample per tick, in the order of the ticks, each with its tick: none is
/// skipped and none is recorded twice.
pub proof fn lemma_run_samples<T: Scalar>(
    stages: Seq<SystemKind>,
    entity: EntityModel<T>,
    t: TimeStep,
    ticks: nat,
)
    requires
        samples_per_tick(stages) == 1,
        t >= 1,
        t + ticks <= usize::MAX,
        entity.row.voltage.is_some(),
        entity.trace.is_some(),
    ensures
        entity_run(stages, entity, t, ticks).row.voltage.is_some(),
        recorded_every_tick(stages, entity, t, ticks, entity_run(stages, entity, t, ticks)),
    decreases ticks,
{
    if ticks > 0 {
        let first = entity_dispatch(stages, 0, entity, t);
        let last = entity_run(stages, entity, t, ticks);
        let before = entity.trace.unwrap().samples;
        lemma_dispatch_samples(stages, 0, entity, t);
        assert(first.trace.unwrap().samples =~= before.push(sample_of(entity, t)));
        lemma_run_samples(stages, first, next_tick(t), (ticks - 1) as nat);
        assert forall|k: int| 0 <= k < ticks implies #[trigger] last.trace.unwrap().samples[
            before.len() + k
        ] == sample_of(entity_run(stages, entity, t, k as nat), (t + k) as usize) by {
            if k > 0 {
                assert(last.trace.unwrap().samples[first.trace.unwrap().samples.len() + (k - 1)]
                    == sample_of(
                    entity_run(stages, first, next_tick(t), (k - 1) as nat),
                    (next_tick(t) + (k - 1)) as usize,
                ));
                assert(entity_run(stages, entity, t, k as nat) == entity_run(
                    stages,
                    first,
                    next_tick(t),
                    (k - 1) as nat,
                ));
            } else {
                assert(last.trace.unwrap().samples[before.len() as int]
                    == first.trace.unwrap().samples[before.len() as int]);
            }
        }
    }
}

/// The spike log of an entity that has one is kept as a log by a run.
pub proof fn lemma_run_keeps_spike_log<T: Scalar>(
    stages: Seq<SystemKind>,
    entity: EntityModel<T>,
    t: TimeStep,
    ticks: nat,
)
    requires
        t >= 1,
        t + ticks <= usize::MAX,
    ensures
        entity_run(stages, entity, t, ticks).spike_log.is_some() == entity.spike_log.is_some(),
    decreases ticks,
{
    if ticks > 0 {
        lemma_dispatch_samples(stages, 0, entity, t);
        lemma_run_keeps_spike_log(
            stages,
            entity_dispatch(stages, 0, entity, t),
            next_tick(t),
            (ticks - 1) as nat,
        );
    }
}

/// A run of `ticks` ticks of a pipeline that records voltages once per tick
/// keeps every entity and every spike log. To every entity that has a voltage
/// and a voltage monitor it gives one sample per tick, each with its tick, and
/// keeps the number of the monitor. Where the run starts at the first tick
/// with nothing recorded, the sample at position `k` is the one whose tick has
/// position `k` in a dense store of `ticks` samples.
pub proof fn lemma_run_records_every_tick<T: Scalar>(
    stages: Seq<SystemKind>,
    world: WorldModel<T>,
    ticks: nat,
)
    requires
        samples_per_tick(stages) == 1,
        world.time >= 1,
        world.time + ticks <= usize::MAX,
    ensures
        run_after(stages, world, ticks).entities.len() == world.entities.len(),
        forall|i: int|
            0 <= i < world.entities.len() ==> (#[trigger] run_after(
                stages,
                world,
                ticks,
            ).entities[i]).spike_log.is_some() == world.entities[i].spike_log.is_some(),
        forall|i: int|
            0 <= i < world.entities.len() && world.entities[i].row.voltage.is_some()
                && world.entities[i].trace.is_some() ==> recorded_every_tick(
                stages,
                world.entities[i],
                world.time,
                ticks,
                #[trigger] run_after(stages, world, ticks).entities[i],
            ),
        forall|i: int, k: int|
            0 <= i < world.entities.len() && world.entities[i].row.voltage.is_some()
                && world.entities[i].trace.is_some()
                && world.entities[i].trace.unwrap().samples.len() == 0 && world.time == 1 && 0 <= k
                < ticks ==> position_of(
                (#[trigger] run_after(
                    stages,
                    world,
                    ticks,
                ).entities[i].trace.unwrap().samples[k]).0,
                ticks as usize,
            ) == Some(k as usize),
{
    lemma_run_is_local(stages, world, ticks);
    assert forall|i: int| 0 <= i < world.entities.len() implies {
        &&& (#[trigger] run_after(stages, world, ticks).entities[i]).spike_log.is_some()
            == world.entities[i].spike_log.is_some()
        &&& world.entities[i].row.voltage.is_some() && world.entities[i].trace.is_some()
            ==> recorded_every_tick(
            stages,
            world.entities[i],
            world.time,
            ticks,
            run_after(stages, world, ticks).entities[i],
        )
    } by {
        lemma_run_keeps_spike_log(stages, world.entities[i], world.time, ticks);
        if world.entities[i].row.voltage.is_some() && world.entities[i].trace.is_some() {
            lemma_run_samples(stages, world.entities[i], world.time, ticks);
        }
    }
    assert forall|i: int, k: int|
        0 <= i < world.entities.len() && world.entities[i].row.voltage.is_some()
            && world.entities[i].trace.is_some() && world.entities[i].trace.unwrap().samples.len()
            == 0 && world.time == 1 && 0 <= k < ticks implies position_of(
        (#[trigger] run_after(stages, world, ticks).entities[i].trace.unwrap().samples[k]).0,
        ticks as usize,
    ) == Some(k as usize) by {
        let after = run_after(stages, world, ticks).entities[i];
        assert(recorded_every_tick(stages, world.entities[i], world.time, ticks, after));
        assert(after.trace.unwrap().samples[0 + k] == sample_of(
            entity_run(stages, world.entities[i], world.time, k as nat),
            (world.time + k) as usize,
        ));
    }
}

/// An ensemble of `size` neurons that has recorded nothing, run for `ticks`
/// ticks by a pipeline that records voltages once per tick, ends with one
/// voltage record per neuron, numbered as the neurons are, each of exactly
/// `ticks` samples whose ticks count up from the first tick of the run; with
/// one spike log per neuron; and with any two of its neurons alike.
pub proof fn lemma_ensemble_run<T: Scalar>(
    stages: Seq<SystemKind>,
    world: WorldModel<T>,
    parameters: LIFParameters<T>,
    base: int,
    size: nat,
    ticks: nat,
)
    requires
        samples_per_tick(stages) == 1,
        world.time >= 1,
        world.time + ticks <= usize::MAX,
        0 <= base,
        base + size == world.entities.len(),
        size <= usize::MAX,
        forall|k: int| 0 <= k < size ==> world.entities[base + k] == parameters.entity(k),
    ensures
        run_after(stages, world, ticks).entities.len() == world.entities.len(),
        forall|k: int|
            0 <= k < size ==> {
                let after = #[trigger] run_after(stages, world, ticks).entities[base + k];
                &&& after.spike_log.is_some()
                &&& after.trace.is_some()
                &&& after.trace.unwrap().neuron_number == k
                &&& after.trace.unwrap().samples.len() == ticks
            },
        forall|k: int, m: int|
            0 <= k < size && 0 <= m < ticks ==> (#[trigger] run_after(
                stages,
                world,
                ticks,
            ).entities[base + k].trace.unwrap().samples[m]).0 == world.time + m,
        forall|k: int, l: int|
            0 <= k < size && 0 <= l < size ==> alike(
                #[trigger] run_after(stages, world, ticks).entities[base + k],
                #[trigger] run_after(stages, world, ticks).entities[base + l],
            ),
{
    lemma_run_records_every_tick(stages, world, ticks);
    assert forall|k: int| 0 <= k < size implies {
        let after = #[trigger] run_after(stages, world, ticks).entities[base + k];
        &&& after.spike_log.is_some()
        &&& after.trace.is_some()
        &&& after.trace.unwrap().neuron_number == k
        &&& after.trace.unwrap().samples.len() == ticks
    } by {
        let before = world.entities[base + k];
        let after = run_after(stages, world, ticks).entities[base + k];
        assert(before == parameters.entity(k));
        assert(recorded_every_tick(stages, before, world.time, ticks, after));
    }
    assert forall|k: int, m: int| 0 <= k < size && 0 <= m < ticks implies (#[trigger] run_after(
        stages,
        world,
        ticks,
    ).entities[base + k].trace.unwrap().samples[m]).0 == world.time + m by {
        let before = world.entities[base + k];
        let after = run_after(stages, world, ticks).entities[base + k];
        assert(before == parameters.entity(k));
        assert(recorded_every_tick(stages, before, world.time, ticks, after));
        assert(after.trace.unwrap().samples[0 + m] == sample_of(
            entity_run(stages, before, world.time, m as nat),
            (world.time + m) as usize,
        ));
    }
    assert forall|k: int, l: int| 0 <= k < size && 0 <= l < size implies alike(
        #[trigger] run_after(stages, world, ticks).entities[base + k],
        #[trigger] run_after(stages, world, ticks).entities[base + l],
    ) by {
        assert(world.entities[base + k] == parameters.entity(k));
        assert(world.entities[base + l] == parameters.entity(l));
        lemma_no_interference(stages, world, ticks, base + k, base + l);
    }
}

/// The neuron is at rest at tick `t`, and the scalar type treats the
/// difference of its voltage and its reversal voltage as zero: the
/// conductance times it and it over the capacitance are again that
/// difference, and adding it to the slot written at `t` changes nothing.
pub open spec fn at_rest<T: Scalar>(row: Attributes<T>, t: TimeStep) -> bool {
    let voltage = row.voltage.unwrap().0;
    let conductance = row.static_conductance.unwrap();
    let zero = voltage.committed(t).sub_spec(conductance.reversal_voltage);
    &&& StaticConductanceHandler::takes_part(row)
    &&& voltage.committed(t) == conductance.reversal_voltage
    &&& conductance.conductance.mul_spec(zero) == zero
    &&& zero.div_spec(row.capacitance.unwrap().0) == zero
    &&& voltage.pending(t).add_spec(zero) == voltage.pending(t)
}

/// A neuron at rest is left as it is by the conductance system, for every
/// scalar type whose arithmetic has a zero.
pub proof fn lemma_neuron_at_rest_is_kept<T: Scalar>(row: Attributes<T>, t: TimeStep)
    requires
        t >= 1,
        at_rest(row, t),
    ensures
        StaticConductanceHandler::after(row, t) == row,
{
}

/// A neuron whose committed voltage is the reversal voltage of its
/// conductance is left as it is by the conductance system, and so is one that
/// receives an input of zero by the input system (stated for integer
/// scalars, whose arithmetic is exact).
pub proof fn lemma_rest_is_kept(row: Attributes<i64>, t: TimeStep)
    requires
        t >= 1,
        row.capacitance.is_some() ==> row.capacitance.unwrap().0 > 0,
    ensures
        StaticConductanceHandler::takes_part(row) && row.voltage.unwrap().0.committed(t)
            == row.static_conductance.unwrap().reversal_voltage ==> {
            &&& StaticConductanceHandler::req(row, t)
            &&& StaticConductanceHandler::after(row, t) == row
        },
        ConstantInputHandler::takes_part(row) && row.constant_input.unwrap().0 == 0 ==> {
            &&& ConstantInputHandler::req(row, t)
            &&& ConstantInputHandler::after(row, t) == row
        },
{
    if row.capacitance.is_some() {
        let c = row.capacitance.unwrap().0;
        assert(0int / (c as int) == 0) by (nonlinear_arith)
            requires
                c > 0,
        ;
        if row.static_conductance.is_some() {
            let g = row.static_conductance.unwrap().conductance;
            assert(g * 0 == 0) by (nonlinear_arith);
        }
    }
}

/// A neuron below its threshold does not spike and keeps its voltage.
pub proof fn lemma_below_threshold_is_kept<T: Scalar>(row: Attributes<T>, t: TimeStep)
    requires
        1 <= t < usize::MAX,
        HardThresholdHandler::takes_part(row),
        !HardThresholdHandler::crossed(row, t),
    ensures
        HardThresholdHandler::req(row, t),
        HardThresholdHandler::after(row, t).voltage == row.voltage,
        HardThresholdHandler::after(row, t).spike.unwrap().0.committed(next_tick(t)) == 0,
{
}

/// A neuron whose voltage has settled at or above its threshold spikes, and
/// its voltage at the next tick is the reset voltage (stated for integer
/// scalars, whose arithmetic is exact). The voltage has settled when the slot
/// written at `t` holds what is read at `t`.
pub proof fn lemma_at_threshold_resets(row: Attributes<i64>, t: TimeStep)
    requires
        1 <= t < usize::MAX,
        HardThresholdHandler::takes_part(row),
        row.voltage.unwrap().0.committed(t) >= row.threshold.unwrap().0,
        row.voltage.unwrap().0.pending(t) == row.voltage.unwrap().0.committed(t),
        HardThresholdHandler::req(row, t),
    ensures
        HardThresholdHandler::crossed(row, t),
        HardThresholdHandler::after(row, t).spike.unwrap().0.committed(next_tick(t)) == 1,
        HardThresholdHandler::after(row, t).voltage.unwrap().0.committed(next_tick(t))
            == row.reset.unwrap().0,
{
}

} // verus!
