use neurosim::components::{
    dataset_index, Capacitance, ConstantInput, HardThreshold, Monitor, Spike, SpikeMonitor,
    StaticConductance, Voltage, VoltageMonitor, VoltageReset,
};
use neurosim::dynamical_variable::{DynamicalScalar, DynamicalVariable};
use neurosim::error::ConfigError;
use neurosim::factories::{create_lif_ensemble, LIFParameters, NeuroSimulation, RunState};
use neurosim::pipeline::{rank_of, Dispatcher};
use neurosim::resources::{add_time_resources, DeltaTime};
use neurosim::scalar::is_positive;
use neurosim::systems::{
    ConstantInputHandler, HardThresholdHandler, SpikeMonitorHandler, StaticConductanceHandler,
    SystemKind, VoltageMonitorHandler,
};
use neurosim::world::{Attributes, Entity, World};

fn integer_row(voltage: i64) -> Attributes<i64> {
    Attributes {
        voltage: Some(Voltage::new(voltage)),
        capacitance: Some(Capacitance(2)),
        static_conductance: Some(StaticConductance::new(4, -70)),
        threshold: Some(HardThreshold(-50)),
        reset: Some(VoltageReset(-60)),
        spike: Some(Spike::new()),
        constant_input: None,
    }
}

fn standard_pipeline() -> Dispatcher {
    Dispatcher::new(vec![
        SystemKind::StaticConductance,
        SystemKind::ConstantInput,
        SystemKind::HardThreshold,
        SystemKind::SpikeMonitor,
        SystemKind::VoltageMonitor,
    ])
    .unwrap()
}

#[test]
fn current_is_conductance_times_driving_force() {
    let conductance = StaticConductance::new(3i64, -70);
    let voltage = Voltage::new(-60i64);
    assert_eq!(conductance.get_current(&voltage, 1), 30);
    assert_eq!(conductance.get_current(&voltage, 2), 30);

    let float_conductance = StaticConductance::new(0.5f64, 1.0);
    assert_eq!(float_conductance.get_current(&Voltage::new(5.0), 1), 2.0);
}

#[test]
fn current_reads_the_committed_voltage() {
    let conductance = StaticConductance::new(1i64, 0);
    let mut voltage = Voltage::new(5i64);
    voltage.0.dynamical_set(9, 1);
    assert_eq!(conductance.get_current(&voltage, 1), 5);
    assert_eq!(conductance.get_current(&voltage, 2), 9);
}

#[test]
fn conductance_system_adds_current_over_capacitance() {
    let row = integer_row(-60);
    let next = StaticConductanceHandler::update(row, 1);
    // 4 * (-60 + 70) / 2 = 20, added to the slot written at tick 1.
    let voltage = next.voltage.unwrap();
    assert_eq!(voltage.0.dynamical_get(1), -60);
    assert_eq!(voltage.0.dynamical_get(2), -40);
}

#[test]
fn conductance_system_keeps_a_neuron_at_rest() {
    let row = integer_row(-70);
    let next = StaticConductanceHandler::update(row, 1);
    assert_eq!(next.voltage.unwrap().0.dynamical_get(1), -70);
    assert_eq!(next.voltage.unwrap().0.dynamical_get(2), -70);

    let float_row = Attributes {
        voltage: Some(Voltage::new(-70.0f32)),
        capacitance: Some(Capacitance(0.1f32)),
        static_conductance: Some(StaticConductance::new(0.01f32, -70.0f32)),
        threshold: None,
        reset: None,
        spike: None,
        constant_input: Some(ConstantInput(0.0f32)),
    };
    let next = ConstantInputHandler::update(StaticConductanceHandler::update(float_row, 1), 1);
    assert_eq!(next.voltage.unwrap().0.dynamical_get(2), -70.0);
}

#[test]
fn conductance_system_skips_entities_without_capacitance() {
    let mut row = integer_row(-60);
    row.capacitance = None;
    let next = StaticConductanceHandler::update(row, 1);
    assert_eq!(next.voltage.unwrap().0.dynamical_get(2), -60);
}

#[test]
fn input_system_adds_input_over_capacitance() {
    let mut row = integer_row(-70);
    row.constant_input = Some(ConstantInput(10));
    let next = ConstantInputHandler::update(row, 1);
    assert_eq!(next.voltage.unwrap().0.dynamical_get(2), -65);
    assert_eq!(next.voltage.unwrap().0.dynamical_get(1), -70);
}

#[test]
fn increments_of_two_systems_accumulate() {
    let mut row = integer_row(-60);
    row.constant_input = Some(ConstantInput(10));
    let next = ConstantInputHandler::update(StaticConductanceHandler::update(row, 1), 1);
    assert_eq!(next.voltage.unwrap().0.dynamical_get(2), -35);
}

#[test]
fn neuron_at_threshold_spikes_and_resets() {
    let row = Attributes {
        voltage: Some(Voltage::new(-50.0f32)),
        capacitance: None,
        static_conductance: None,
        threshold: Some(HardThreshold(-50.0f32)),
        reset: Some(VoltageReset(-60.0f32)),
        spike: Some(Spike::new()),
        constant_input: None,
    };
    let next = HardThresholdHandler::update(row, 1);
    assert_eq!(next.spike.unwrap().0.dynamical_get(2), 1);
    assert_eq!(next.voltage.unwrap().0.dynamical_get(2), -60.0);
    assert_eq!(next.voltage.unwrap().0.dynamical_get(1), -50.0);
}

#[test]
fn neuron_one_unit_below_threshold_is_left_alone() {
    let row = integer_row(-51);
    let next = HardThresholdHandler::update(row, 1);
    assert_eq!(next.spike.unwrap().0.dynamical_get(2), 0);
    assert_eq!(next.voltage.unwrap().0.dynamical_get(2), -51);
    assert_eq!(next.voltage.unwrap().0.dynamical_get(1), -51);
}

#[test]
fn threshold_decides_on_the_committed_voltage() {
    let mut row = integer_row(-70);
    let mut voltage = row.voltage.unwrap();
    // In progress for tick 1: far above threshold; committed: at rest.
    voltage.0.dynamical_set(0, 1);
    row.voltage = Some(voltage);
    let next = HardThresholdHandler::update(row, 1);
    assert_eq!(next.spike.unwrap().0.dynamical_get(2), 0);
    assert_eq!(next.voltage.unwrap().0.dynamical_get(2), 0);
}

#[test]
fn threshold_clears_an_earlier_spike() {
    let mut row = integer_row(-70);
    row.spike = Some(Spike(DynamicalScalar { even: 1, odd: 1 }));
    let next = HardThresholdHandler::update(row, 1);
    assert_eq!(next.spike.unwrap().0.dynamical_get(2), 0);
    assert_eq!(next.spike.unwrap().0.dynamical_get(1), 1);
}

#[test]
fn spike_monitor_logs_only_ticks_with_a_spike() {
    let mut monitor = SpikeMonitor::new();
    let quiet = Spike::new();
    monitor.write(quiet, 1);
    assert!(monitor.events.is_empty());
    let mut spike = Spike::new();
    spike.0.dynamical_set(1, 4);
    monitor.write(spike, 4);
    assert!(monitor.events.is_empty());
    monitor.write(spike, 5);
    assert_eq!(monitor.events, vec![5]);
}

#[test]
fn voltage_monitor_appends_the_committed_voltage() {
    let mut monitor = VoltageMonitor::new(3);
    let mut voltage = Voltage::new(-70i64);
    voltage.0.dynamical_set(-65, 1);
    monitor.write(voltage, 1);
    monitor.write(voltage, 2);
    assert_eq!(monitor.trace, vec![(1, -70), (2, -65)]);
    assert_eq!(monitor.neuron_number, 3);
}

#[test]
fn voltage_monitor_records_the_tick_it_was_written_at() {
    let voltage = Voltage::new(-70i64);
    let mut early = VoltageMonitor::new(0);
    early.write(voltage, 1);
    let mut late = VoltageMonitor::new(0);
    late.write(voltage, 5);
    assert_eq!(early.trace, vec![(1, -70)]);
    assert_eq!(late.trace, vec![(5, -70)]);
    assert_ne!(early.trace, late.trace);
}

#[test]
fn sample_of_a_tick_stands_one_position_before_it() {
    assert_eq!(dataset_index(1, 10), Some(0));
    assert_eq!(dataset_index(10, 10), Some(9));
    assert_eq!(dataset_index(0, 10), None);
    assert_eq!(dataset_index(11, 10), None);
    assert_eq!(dataset_index(1, 0), None);
    assert_eq!(dataset_index(usize::MAX, usize::MAX), Some(usize::MAX - 1));
}

#[test]
fn pipeline_counts_its_systems() {
    let pipeline = standard_pipeline();
    assert_eq!(pipeline.count(SystemKind::VoltageMonitor), 1);
    assert_eq!(pipeline.count(SystemKind::StaticConductance), 1);
    assert!(pipeline.records_each_tick_once());

    let silent = Dispatcher::new(vec![SystemKind::StaticConductance]).unwrap();
    assert_eq!(silent.count(SystemKind::VoltageMonitor), 0);
    assert!(!silent.records_each_tick_once());
    assert!(!Dispatcher::new(Vec::new()).unwrap().records_each_tick_once());

    let twice = Dispatcher::new(vec![
        SystemKind::VoltageMonitor,
        SystemKind::SpikeMonitor,
        SystemKind::VoltageMonitor,
    ])
    .unwrap();
    assert_eq!(twice.count(SystemKind::VoltageMonitor), 2);
    assert_eq!(twice.count(SystemKind::SpikeMonitor), 1);
    assert!(!twice.records_each_tick_once());
}

#[test]
fn monitor_twice_in_a_pipeline_records_twice_per_tick() {
    let mut simulation = NeuroSimulation::new(1i64, 2).unwrap();
    create_lif_ensemble(&mut simulation, LIFParameters::from_scalars(1, 0, -70, -50, -60), 1)
        .unwrap();
    let twice =
        Dispatcher::new(vec![SystemKind::VoltageMonitor, SystemKind::VoltageMonitor]).unwrap();
    simulation.run(&twice);
    assert_eq!(
        simulation.world.voltage_monitors[0].as_ref().unwrap().trace,
        vec![(1, -70), (1, -70), (2, -70), (2, -70)]
    );
}

#[test]
fn systems_keep_the_number_of_a_monitor() {
    let mut simulation = NeuroSimulation::new(1i64, 3).unwrap();
    let handles =
        create_lif_ensemble(&mut simulation, LIFParameters::from_scalars(1, 0, -70, -50, -60), 3)
            .unwrap();
    assert!(simulation.world.insert_constant_input(handles[2], ConstantInput(10)));
    simulation.run(&standard_pipeline());
    for k in 0..3 {
        assert_eq!(simulation.world.voltage_monitors[k].as_ref().unwrap().neuron_number, k);
    }
}

#[test]
fn positive_means_above_zero() {
    assert!(is_positive(1i64));
    assert!(!is_positive(0i64));
    assert!(!is_positive(-3i64));
    assert!(is_positive(0.1f32));
    assert!(!is_positive(0.0f32));
    assert!(!is_positive(f32::NAN));
    assert!(!is_positive(f32::INFINITY));
}

#[test]
fn clock_starts_at_the_first_tick() {
    let mut world: World<i64> = World::new();
    assert_eq!(world.time.0, 0);
    assert_eq!(world.len(), 0);
    assert!(add_time_resources(&mut world, DeltaTime(5)).is_ok());
    assert_eq!(world.time.0, 1);
    assert_eq!(world.delta_time.unwrap().0, 5);
}

#[test]
fn clock_with_non_positive_tick_length_is_refused() {
    let mut world: World<f32> = World::new();
    let done = add_time_resources(&mut world, DeltaTime(0.0));
    assert!(matches!(done, Err(ConfigError::NonPositiveTimeStep)));
    assert_eq!(world.time.0, 0);
    assert!(world.delta_time.is_none());
    let done = add_time_resources(&mut world, DeltaTime(-0.1));
    assert!(matches!(done, Err(ConfigError::NonPositiveTimeStep)));
}

#[test]
fn simulation_without_ticks_is_refused() {
    let made = NeuroSimulation::new(0.1f32, 0);
    assert!(matches!(made, Err(ConfigError::NoTimesteps)));
    let made = NeuroSimulation::new(0.0f32, 0);
    assert!(matches!(made, Err(ConfigError::NoTimesteps)));
}

#[test]
fn simulation_with_non_positive_time_step_is_refused() {
    assert!(matches!(NeuroSimulation::new(0.0f32, 10), Err(ConfigError::NonPositiveTimeStep)));
    assert!(matches!(NeuroSimulation::new(-1i64, 10), Err(ConfigError::NonPositiveTimeStep)));
    assert!(NeuroSimulation::new(1i64, 10).is_ok());
}

#[test]
fn empty_ensemble_is_refused() {
    let mut simulation = NeuroSimulation::new(0.1f32, 10).unwrap();
    let parameters = LIFParameters::from_scalars(0.1, 0.01, -70.0, -50.0, -60.0);
    let made = create_lif_ensemble(&mut simulation, parameters, 0);
    assert!(matches!(made, Err(ConfigError::EmptyPopulation)));
    assert_eq!(simulation.world.len(), 0);
}

#[test]
fn ensemble_with_non_positive_capacitance_is_refused() {
    let mut simulation = NeuroSimulation::new(0.1f32, 10).unwrap();
    let parameters = LIFParameters::from_scalars(0.0, 0.01, -70.0, -50.0, -60.0);
    let made = create_lif_ensemble(&mut simulation, parameters, 4);
    assert!(matches!(made, Err(ConfigError::NonPositiveCapacitance)));
    assert_eq!(simulation.world.len(), 0);
    let parameters = LIFParameters::from_scalars(-0.1, 0.01, -70.0, -50.0, -60.0);
    let made = create_lif_ensemble(&mut simulation, parameters, 4);
    assert!(matches!(made, Err(ConfigError::NonPositiveCapacitance)));
}

#[test]
fn ensemble_broadcasts_its_parameters() {
    let mut simulation = NeuroSimulation::new(1i64, 10).unwrap();
    let parameters = LIFParameters::from_scalars(2, 4, -70, -50, -60);
    let handles = create_lif_ensemble(&mut simulation, parameters, 3).unwrap();
    assert_eq!(handles.len(), 3);
    assert_eq!(simulation.world.len(), 3);
    for (k, handle) in handles.iter().enumerate() {
        assert_eq!(handle.0, k);
        let row = simulation.world.rows[k];
        assert_eq!(row.capacitance.unwrap().0, 2);
        assert_eq!(row.static_conductance.unwrap().conductance, 4);
        assert_eq!(row.static_conductance.unwrap().reversal_voltage, -70);
        assert_eq!(row.threshold.unwrap().0, -50);
        assert_eq!(row.reset.unwrap().0, -60);
        assert_eq!(row.voltage.unwrap().0.dynamical_get(1), -70);
        assert_eq!(row.spike.unwrap().0.dynamical_get(1), 0);
        assert!(row.constant_input.is_none());
        assert!(simulation.world.spike_monitors[k].as_ref().unwrap().events.is_empty());
        let monitor = simulation.world.voltage_monitors[k].as_ref().unwrap();
        assert!(monitor.trace.is_empty());
        assert_eq!(monitor.neuron_number, k);
    }
    let more = create_lif_ensemble(&mut simulation, parameters, 2).unwrap();
    assert_eq!(more[0].0, 3);
    assert_eq!(more[1].0, 4);
    assert_eq!(simulation.world.len(), 5);
}

#[test]
fn pipeline_out_of_order_is_refused() {
    let made = Dispatcher::new(vec![SystemKind::HardThreshold, SystemKind::StaticConductance]);
    assert!(matches!(made, Err(ConfigError::OutOfOrder)));
    let made = Dispatcher::new(vec![
        SystemKind::StaticConductance,
        SystemKind::SpikeMonitor,
        SystemKind::HardThreshold,
    ]);
    assert!(matches!(made, Err(ConfigError::OutOfOrder)));
    let made = Dispatcher::new(vec![
        SystemKind::StaticConductance,
        SystemKind::HardThreshold,
        SystemKind::VoltageMonitor,
        SystemKind::ConstantInput,
    ]);
    assert!(matches!(made, Err(ConfigError::OutOfOrder)));
}

#[test]
fn pipeline_in_order_is_accepted() {
    assert!(Dispatcher::new(Vec::new()).is_ok());
    assert!(Dispatcher::new(vec![
        SystemKind::ConstantInput,
        SystemKind::StaticConductance,
        SystemKind::HardThreshold,
        SystemKind::VoltageMonitor,
        SystemKind::SpikeMonitor,
    ])
    .is_ok());
    assert_eq!(rank_of(SystemKind::StaticConductance), 0);
    assert_eq!(rank_of(SystemKind::ConstantInput), 0);
    assert_eq!(rank_of(SystemKind::HardThreshold), 1);
    assert_eq!(rank_of(SystemKind::SpikeMonitor), 2);
    assert_eq!(rank_of(SystemKind::VoltageMonitor), 2);
}

#[test]
fn systems_visit_every_entity() {
    let mut simulation = NeuroSimulation::new(1i64, 1).unwrap();
    create_lif_ensemble(&mut simulation, LIFParameters::from_scalars(2, 4, -70, -50, -60), 2)
        .unwrap();
    simulation.world.rows[1].voltage = Some(Voltage::new(-40));
    let mut conductance = StaticConductanceHandler;
    conductance.run(&mut simulation.world);
    let mut threshold = HardThresholdHandler;
    threshold.run(&mut simulation.world);
    let mut spikes = SpikeMonitorHandler;
    spikes.run(&mut simulation.world);
    let mut voltages = VoltageMonitorHandler;
    voltages.run(&mut simulation.world);
    let mut input = ConstantInputHandler;
    input.run(&mut simulation.world);

    let rest = simulation.world.rows[0];
    assert_eq!(rest.voltage.unwrap().0.dynamical_get(2), -70);
    assert_eq!(rest.spike.unwrap().0.dynamical_get(2), 0);
    let driven = simulation.world.rows[1];
    // -40 + 4 * (-40 + 70) / 2 + (-60 + 40)
    assert_eq!(driven.voltage.unwrap().0.dynamical_get(2), 0);
    assert_eq!(driven.spike.unwrap().0.dynamical_get(2), 1);
    assert_eq!(simulation.world.voltage_monitors[0].as_ref().unwrap().trace, vec![(1, -70)]);
    assert_eq!(simulation.world.voltage_monitors[1].as_ref().unwrap().trace, vec![(1, -40)]);
    assert!(simulation.world.spike_monitors[1].as_ref().unwrap().events.is_empty());
    assert_eq!(simulation.world.time.0, 1);
}

#[test]
fn run_executes_every_tick_and_completes() {
    let mut simulation = NeuroSimulation::new(1i64, 5).unwrap();
    create_lif_ensemble(&mut simulation, LIFParameters::from_scalars(2, 0, -70, -50, -60), 2)
        .unwrap();
    assert!(matches!(simulation.state, RunState::Initialized));
    simulation.run(&standard_pipeline());
    assert!(matches!(simulation.state, RunState::Completed));
    assert_eq!(simulation.world.time.0, 6);
    for k in 0..2 {
        assert_eq!(
            simulation.world.voltage_monitors[k].as_ref().unwrap().trace,
            vec![(1, -70), (2, -70), (3, -70), (4, -70), (5, -70)]
        );
        assert!(simulation.world.spike_monitors[k].as_ref().unwrap().events.is_empty());
    }
    simulation.run(&standard_pipeline());
    assert_eq!(simulation.world.time.0, 6);
    assert_eq!(simulation.world.voltage_monitors[0].as_ref().unwrap().trace.len(), 5);
}

#[test]
fn integer_neuron_spikes_and_resets() {
    let mut simulation = NeuroSimulation::new(1i64, 6).unwrap();
    create_lif_ensemble(&mut simulation, LIFParameters::from_scalars(1, 0, -70, -50, -60), 1)
        .unwrap();
    simulation.world.rows[0].constant_input = Some(ConstantInput(10));
    simulation.run(&standard_pipeline());
    // Odd slot, written at ticks 1, 3, 5: -60, -50, -40.
    // Even slot, written at ticks 2, 4: -60, then -60 + 10 + (-60 + 50) = -60,
    // the spike of tick 4 being read at tick 5.
    let trace = &simulation.world.voltage_monitors[0].as_ref().unwrap().trace;
    assert_eq!(*trace, vec![(1, -70), (2, -60), (3, -60), (4, -50), (5, -60), (6, -40)]);
    let events = &simulation.world.spike_monitors[0].as_ref().unwrap().events;
    assert_eq!(*events, vec![5]);
}

fn expected_run(input: f32, ticks: usize) -> (Vec<u32>, Vec<usize>) {
    let capacitance = 0.1f32;
    let conductance = 0.01f32;
    let reversal = -70.0f32;
    let threshold = -50.0f32;
    let reset = -60.0f32;
    let mut voltage = [reversal, reversal];
    let mut spike = [0usize, 0usize];
    let mut trace = Vec::new();
    let mut events = Vec::new();
    for t in 1..=ticks {
        let read = (t - 1) % 2;
        let write = t % 2;
        let committed = voltage[read];
        voltage[write] = voltage[write] + conductance * (committed - reversal) / capacitance;
        voltage[write] = voltage[write] + input / capacitance;
        if committed >= threshold {
            voltage[write] = voltage[write] + (reset - committed);
            spike[write] = 1;
        } else {
            spike[write] = 0;
        }
        if spike[read] > 0 {
            events.push(t);
        }
        trace.push(voltage[read].to_bits());
    }
    (trace, events)
}

#[test]
fn driven_neuron_crosses_threshold_within_a_thousand_ticks() {
    let ticks = 1000;
    let mut simulation = NeuroSimulation::new(0.1f32, ticks).unwrap();
    let parameters = LIFParameters::from_scalars(0.1, 0.01, -70.0, -50.0, -60.0);
    let handles = create_lif_ensemble(&mut simulation, parameters, 1).unwrap();
    assert_eq!(handles.len(), 1);
    assert!(simulation.world.insert_constant_input(handles[0], ConstantInput(2.0)));
    simulation.run(&standard_pipeline());

    let events = &simulation.world.spike_monitors[0].as_ref().unwrap().events;
    let trace = &simulation.world.voltage_monitors[0].as_ref().unwrap().trace;
    assert!(!events.is_empty());
    assert_eq!(events[0], 3);
    assert_eq!(trace.len(), ticks);
    assert_eq!(trace[0], (1, -70.0));
    assert_eq!(trace[1], (2, -50.0));
    assert_eq!(trace[2], (3, -58.0));
    for (position, sample) in trace.iter().enumerate() {
        assert_eq!(sample.0, position + 1);
        assert_eq!(dataset_index(sample.0, ticks), Some(position));
    }

    let (expected_trace, expected_events) = expected_run(2.0, ticks);
    let bits: Vec<u32> = trace.iter().map(|sample| sample.1.to_bits()).collect();
    assert_eq!(bits, expected_trace);
    assert_eq!(*events, expected_events);
    for tick in events.iter() {
        assert!(*tick >= 2 && *tick <= ticks);
    }
}

#[test]
fn settled_neuron_at_threshold_reads_reset_after_the_spike() {
    let mut simulation = NeuroSimulation::new(0.1f32, 3).unwrap();
    let parameters = LIFParameters::from_scalars(0.1, 0.0, -70.0, -50.0, -60.0);
    create_lif_ensemble(&mut simulation, parameters, 1).unwrap();
    simulation.world.rows[0].voltage = Some(Voltage::new(-50.0));
    let pipeline = Dispatcher::new(vec![
        SystemKind::HardThreshold,
        SystemKind::SpikeMonitor,
        SystemKind::VoltageMonitor,
    ])
    .unwrap();
    simulation.run(&pipeline);
    let trace = &simulation.world.voltage_monitors[0].as_ref().unwrap().trace;
    let events = &simulation.world.spike_monitors[0].as_ref().unwrap().events;
    assert_eq!(events[0], 2);
    assert_eq!(trace[0], (1, -50.0));
    assert_eq!(trace[1], (2, -60.0));
}

#[test]
fn identical_neurons_give_identical_traces() {
    let neurons = 4;
    let ticks = 200;
    let mut simulation = NeuroSimulation::new(0.1f32, ticks).unwrap();
    let parameters = LIFParameters::from_scalars(0.1, 0.01, -70.0, -50.0, -60.0);
    create_lif_ensemble(&mut simulation, parameters, neurons).unwrap();
    for k in 0..neurons {
        simulation.world.rows[k].constant_input = Some(ConstantInput(2.0));
    }
    simulation.run(&standard_pipeline());
    assert_eq!(simulation.world.len(), neurons);
    assert_eq!(simulation.world.voltage_monitors.len(), neurons);
    assert_eq!(simulation.world.spike_monitors.len(), neurons);
    let first: Vec<u32> = simulation.world.voltage_monitors[0]
        .as_ref()
        .unwrap()
        .trace
        .iter()
        .map(|sample| sample.1.to_bits())
        .collect();
    assert_eq!(first.len(), ticks);
    for k in 0..neurons {
        let monitor = simulation.world.voltage_monitors[k].as_ref().unwrap();
        let bits: Vec<u32> = monitor.trace.iter().map(|sample| sample.1.to_bits()).collect();
        assert_eq!(monitor.neuron_number, k);
        assert_eq!(bits, first);
        assert_eq!(
            simulation.world.spike_monitors[k].as_ref().unwrap().events,
            simulation.world.spike_monitors[0].as_ref().unwrap().events
        );
    }
}

#[test]
fn constant_input_goes_to_the_entity_named() {
    let mut simulation = NeuroSimulation::new(1i64, 1).unwrap();
    let handles =
        create_lif_ensemble(&mut simulation, LIFParameters::from_scalars(1, 0, -70, -50, -60), 2)
            .unwrap();
    assert!(simulation.world.insert_constant_input(handles[1], ConstantInput(7)));
    assert!(simulation.world.rows[0].constant_input.is_none());
    assert_eq!(simulation.world.rows[1].constant_input.unwrap().0, 7);
    assert_eq!(simulation.world.rows[1].capacitance.unwrap().0, 1);
    assert!(simulation.world.insert_constant_input(handles[1], ConstantInput(9)));
    assert_eq!(simulation.world.rows[1].constant_input.unwrap().0, 9);
    assert!(!simulation.world.insert_constant_input(Entity(2), ConstantInput(7)));
    assert_eq!(simulation.world.len(), 2);
}

#[test]
fn a_driven_neuron_does_not_disturb_its_neighbour() {
    let mut simulation = NeuroSimulation::new(1i64, 8).unwrap();
    create_lif_ensemble(&mut simulation, LIFParameters::from_scalars(1, 0, -70, -50, -60), 2)
        .unwrap();
    simulation.world.rows[0].constant_input = Some(ConstantInput(10));
    simulation.run(&standard_pipeline());
    let quiet = &simulation.world.voltage_monitors[1].as_ref().unwrap().trace;
    assert_eq!(quiet.len(), 8);
    for (position, sample) in quiet.iter().enumerate() {
        assert_eq!(*sample, (position + 1, -70));
    }
    assert!(simulation.world.spike_monitors[1].as_ref().unwrap().events.is_empty());
    assert!(!simulation.world.spike_monitors[0].as_ref().unwrap().events.is_empty());
}
