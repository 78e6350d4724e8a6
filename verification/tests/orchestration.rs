use many_worlds::errors::ConfigurationError;
use many_worlds::probability::Probability;
use many_worlds::registry::{InstanceRegistry, ResultStore, SimulationSteps};
use many_worlds::simulation::{flip_coins, record_coins, reset_coins, step, Simulation};

fn prob(num: i64, den: i64) -> Probability {
    Probability::new(num, den).expect("probability within [0, 1]")
}

#[test]
fn successes_never_exceed_trials() {
    let mut sim = Simulation::new(prob(1, 2), 100).expect("valid configuration");
    assert!(sim.n_heads() <= sim.n_tosses());
    for _ in 0..20 {
        step(&mut sim);
        assert!(sim.n_heads() <= sim.n_tosses());
    }
    assert_eq!(sim.n_tosses(), 2000);
}

#[test]
fn stages_only_record_mutates_counters() {
    let mut sim = Simulation::new(prob(1, 2), 50).expect("valid configuration");
    flip_coins(&mut sim);
    assert_eq!(sim.n_tosses(), 0);
    assert_eq!(sim.n_heads(), 0);
    record_coins(&mut sim);
    assert_eq!(sim.n_tosses(), 50);
    reset_coins(&mut sim);
    assert_eq!(sim.n_tosses(), 50);
}

#[test]
fn reset_clears_and_mutate_attaches() {
    let mut sim = Simulation::new(prob(1, 2), 100).expect("valid configuration");
    assert!(sim.has_no_outcomes());
    flip_coins(&mut sim);
    assert!(sim.all_have_outcomes());
    record_coins(&mut sim);
    reset_coins(&mut sim);
    assert!(sim.has_no_outcomes());
    flip_coins(&mut sim);
    assert!(sim.all_have_outcomes());
}

#[test]
fn determinism_two_runs() {
    let run = || {
        let steps = SimulationSteps::new(10).expect("positive step count");
        let mut reg = InstanceRegistry::new();
        reg.add_simulation(Simulation::new(prob(1, 2), 100).expect("valid configuration"));
        reg.add_simulation(Simulation::new(prob(1, 10), 100).expect("valid configuration"));
        reg.add_simulation(Simulation::new(prob(1, 1), 400).expect("valid configuration"));
        let mut store = ResultStore::new();
        for _ in 0..5 {
            reg.tick(&steps, &mut store);
        }
        store
    };
    let a = run();
    let b = run();
    assert_eq!(a.len(), b.len());
    assert_eq!(a.len(), 15);
    for i in 0..a.len() {
        assert_eq!(a.get(i), b.get(i));
    }
}

#[test]
fn seed_changes_the_stream() {
    let run = |seed: u64| {
        let mut sim = Simulation::with_seed(prob(1, 2), 1000, seed).expect("valid configuration");
        step(&mut sim);
        sim.n_heads()
    };
    // With a thousand fair draws, two different seeds giving the very same
    // count would be a coincidence; the default seed must reproduce itself.
    assert_eq!(run(42), run(42));
    assert_ne!(run(1), run(2));
}

#[test]
fn hundred_entities_ten_ticks() {
    let steps = SimulationSteps::new(1).expect("positive step count");
    let mut reg = InstanceRegistry::new();
    let id = reg.add_simulation(Simulation::new(prob(1, 2), 100).expect("valid configuration"));
    assert_eq!(id, 0);
    let mut store = ResultStore::new();
    for _ in 0..10 {
        reg.tick(&steps, &mut store);
    }
    assert_eq!(store.len(), 10);
    let last = store.get(9);
    assert_eq!(last.n_tosses, 1000);
    // The deterministic success count reproduced by the fixed default seed.
    assert_eq!(last.n_heads, 501);
}

#[test]
fn three_instances_first_tick() {
    let steps = SimulationSteps::new(1).expect("positive step count");
    let mut reg = InstanceRegistry::new();
    reg.add_simulation(Simulation::new(prob(1, 2), 100).expect("valid configuration"));
    reg.add_simulation(Simulation::new(prob(1, 10), 100).expect("valid configuration"));
    reg.add_simulation(Simulation::new(prob(1, 1), 400).expect("valid configuration"));
    assert_eq!(reg.len(), 3);
    let mut store = ResultStore::new();
    reg.tick(&steps, &mut store);
    assert!(reg.is_started());
    assert_eq!(store.len(), 3);
    let expected = [(1u32, 2u32, 100u64), (1, 10, 100), (1, 1, 400)];
    for (i, (num, den, entities)) in expected.iter().enumerate() {
        let snap = store.get(i);
        assert_eq!(snap.p.numerator(), *num);
        assert_eq!(snap.p.denominator(), *den);
        assert_eq!(snap.n_tosses, *entities);
        assert!(snap.n_heads <= snap.n_tosses);
    }
}

#[test]
fn degenerate_probabilities_pin_the_counters() {
    // Probability one: every draw is heads. A draw that ignored the
    // configured ratio, or a record stage that miscounted, would fail here.
    let mut always = Simulation::new(prob(1, 1), 400).expect("valid configuration");
    step(&mut always);
    assert_eq!(always.n_tosses(), 400);
    assert_eq!(always.n_heads(), 400);
    // Probability zero: no draw is heads.
    let mut never = Simulation::new(prob(0, 7), 400).expect("valid configuration");
    step(&mut never);
    assert_eq!(never.n_tosses(), 400);
    assert_eq!(never.n_heads(), 0);
}

#[test]
fn snapshots_are_independent_readings() {
    let steps = SimulationSteps::new(3).expect("positive step count");
    let mut reg = InstanceRegistry::new();
    reg.add_simulation(Simulation::new(prob(1, 2), 10).expect("valid configuration"));
    let mut store = ResultStore::new();
    reg.tick(&steps, &mut store);
    reg.tick(&steps, &mut store);
    assert_eq!(store.len(), 2);
    assert_eq!(store.get(0).n_tosses, 30);
    assert_eq!(store.get(1).n_tosses, 60);
    assert!(store.get(0).n_heads <= store.get(1).n_heads);
}

#[test]
fn invalid_probability_rejected() {
    // Probability 1.5, as the ratio 3/2.
    assert_eq!(
        Probability::new(3, 2),
        Err(ConfigurationError::ProbabilityOutOfRange)
    );
    // Probability -0.1, as the ratio -1/10.
    assert_eq!(
        Probability::new(-1, 10),
        Err(ConfigurationError::ProbabilityOutOfRange)
    );
    assert_eq!(
        Probability::new(1, 0),
        Err(ConfigurationError::ProbabilityOutOfRange)
    );
    // A rejected configuration never yields an instance, so nothing is
    // registered and nothing is snapshotted.
    let mut reg = InstanceRegistry::new();
    for (num, den) in [(3i64, 2i64), (-1, 10)] {
        if let Ok(p) = Probability::new(num, den) {
            reg.add_simulation(Simulation::new(p, 100).expect("valid configuration"));
        }
    }
    assert_eq!(reg.len(), 0);
    let steps = SimulationSteps::new(1).expect("positive step count");
    let mut store = ResultStore::new();
    reg.tick(&steps, &mut store);
    assert_eq!(store.len(), 0);
}

#[test]
fn invalid_entity_and_step_counts_rejected() {
    assert_eq!(
        Simulation::new(prob(1, 2), 0).err(),
        Some(ConfigurationError::NonPositiveEntityCount)
    );
    assert_eq!(
        Simulation::new(prob(1, 2), -5).err(),
        Some(ConfigurationError::NonPositiveEntityCount)
    );
    assert_eq!(
        SimulationSteps::new(0).err(),
        Some(ConfigurationError::NonPositiveStepCount)
    );
    assert_eq!(
        SimulationSteps::new(-1).err(),
        Some(ConfigurationError::NonPositiveStepCount)
    );
    assert_eq!(SimulationSteps::new(7).expect("positive").get(), 7);
}

#[test]
fn fresh_instance_is_clean() {
    let sim = Simulation::new(prob(2, 3), 25).expect("valid configuration");
    assert_eq!(sim.entity_count(), 25);
    assert_eq!(sim.n_tosses(), 0);
    assert_eq!(sim.n_heads(), 0);
    assert!(sim.has_no_outcomes());
    let snap = sim.take_snapshot();
    assert_eq!(snap.p.numerator(), 2);
    assert_eq!(snap.p.denominator(), 3);
    assert_eq!(snap.n_tosses, 0);
    assert_eq!(snap.n_heads, 0);
}
