use crate::errors::ConfigurationError;
use crate::simulation::{ran_for, step, CoinSimResults, Simulation};
use vstd::prelude::*;

verus! {

/// The number of steps every instance runs for each pass of the outer
/// driver loop, uniform across instances for the tick.
#[derive(Clone, Copy, Debug)]
pub struct SimulationSteps {
    steps: isize,
}

impl SimulationSteps {
    /// The configured steps-per-tick multiplier.
    pub closed spec fn count(self) -> int {
        self.steps as int
    }

    /// A validated multiplier is positive.
    pub open spec fn wf(self) -> bool {
        1 <= self.count()
    }

    /// Validates the steps-per-tick multiplier, accepted exactly when it is
    /// positive.
    pub fn new(steps: isize) -> (r: Result<SimulationSteps, ConfigurationError>)
        ensures
            (1 <= steps) <==> r is Ok,
            r matches Ok(s) ==> s.count() == steps && s.wf(),
            r matches Err(e) ==> e == ConfigurationError::NonPositiveStepCount,
    {
        if steps >= 1 {
            Ok(SimulationSteps { steps })
        } else {
            Err(ConfigurationError::NonPositiveStepCount)
        }
    }

    /// The configured multiplier.
    pub fn get(&self) -> (r: isize)
        ensures
            r == self.count(),
    {
        self.steps
    }
}

/// Driver inner loop: runs one instance's pipeline `steps.count()` times
/// sequentially. Steps of one instance are causally ordered, so they run
/// strictly one after the other; the instance ends the run with its trials
/// counter grown by exactly one trial per entity per step and with no
/// outcome left attached.
pub fn run_simulation(sim: &mut Simulation, steps: &SimulationSteps)
    requires
        old(sim).wf(),
        old(sim).outcomes_clear(),
        steps.wf(),
        old(sim).trials() + steps.count() * old(sim).population() <= u64::MAX,
    ensures
        ran_for(*old(sim), *final(sim), steps.count()),
{
    let k = steps.get();
    let mut j: isize = 0;
    while j < k
        invariant
            0 <= j <= k,
            k == steps.count(),
            old(sim).trials() + k * old(sim).population() <= u64::MAX,
            ran_for(*old(sim), *sim, j as int),
        decreases k - j,
    {
        proof {
            let ec = old(sim).population() as int;
            assert((j + 1) * ec == j * ec + ec) by (nonlinear_arith);
            assert((j + 1) * ec <= k * ec) by (nonlinear_arith)
                requires
                    0 <= j < k,
                    0 <= ec,
            ;
        }
        step(sim);
        j = j + 1;
    }
}

/// Append-only ordered store of the immutable per-instance snapshots taken
/// by the driver; an external consumer reads it.
pub struct ResultStore {
    records: Vec<CoinSimResults>,
}

impl View for ResultStore {
    type V = Seq<CoinSimResults>;

    closed spec fn view(&self) -> Seq<CoinSimResults> {
        self.records@
    }
}

impl ResultStore {
    /// An empty store.
    pub fn new() -> (r: ResultStore)
        ensures
            r@ == Seq::<CoinSimResults>::empty(),
    {
        ResultStore { records: Vec::new() }
    }

    /// How many snapshots the store holds.
    pub fn len(&self) -> (n: usize)
        ensures
            n == self@.len(),
    {
        self.records.len()
    }

    /// Read-only access to the snapshot at position `i`.
    pub fn get(&self, i: usize) -> (r: &CoinSimResults)
        requires
            i < self@.len(),
        ensures
            *r == self@[i as int],
    {
        &self.records[i]
    }
}

/// Reads the instance's accumulated counters and appends their snapshot to
/// the store. The store only ever grows, and no snapshot already appended
/// changes.
pub fn collect_data(collected_data: &mut ResultStore, sim: &Simulation)
    ensures
        final(collected_data)@ == old(collected_data)@.push(sim.snapshot()),
{
    collected_data.records.push(sim.take_snapshot());
}

/// Owns every registered instance, in stable registration order, and
/// grants each exclusive access during its own scheduled turn. An
/// instance's id is its position in this order.
pub struct InstanceRegistry {
    sims: Vec<Simulation>,
    started: bool,
}

impl InstanceRegistry {
    /// The registered instances, in registration order.
    pub closed spec fn instances(self) -> Seq<Simulation> {
        self.sims@
    }

    /// Whether the driver has begun ticking; registration is only allowed
    /// before it has.
    pub closed spec fn started(self) -> bool {
        self.started
    }

    /// Every registered instance is well-formed and, as always between
    /// steps, carries no ephemeral outcome.
    pub open spec fn wf(self) -> bool {
        forall|i: int|
            0 <= i < self.instances().len() ==> (#[trigger] self.instances()[i]).wf()
                && self.instances()[i].outcomes_clear()
    }

    /// An empty registry, still in its setup phase.
    pub fn new() -> (r: InstanceRegistry)
        ensures
            r.instances() == Seq::<Simulation>::empty(),
            !r.started(),
            r.wf(),
    {
        InstanceRegistry { sims: Vec::new(), started: false }
    }

    /// Registers a fully validated instance and assigns it the next
    /// sequential id. Registration must happen during the setup phase,
    /// before the driver begins ticking; the registration order of the
    /// instances already held does not change.
    pub fn add_simulation(&mut self, sim: Simulation) -> (id: usize)
        requires
            !old(self).started(),
            old(self).wf(),
            sim.wf(),
            sim.outcomes_clear(),
        ensures
            final(self).instances() == old(self).instances().push(sim),
            id == old(self).instances().len(),
            !final(self).started(),
            final(self).wf(),
    {
        let id = self.sims.len();
        self.sims.push(sim);
        id
    }

    /// How many instances are registered.
    pub fn len(&self) -> (n: usize)
        ensures
            n == self.instances().len(),
    {
        self.sims.len()
    }

    /// Whether the driver has begun ticking.
    pub fn is_started(&self) -> (b: bool)
        ensures
            b == self.started(),
    {
        self.started
    }

    /// Read-only access to the instance with id `i`.
    pub fn get(&self, i: usize) -> (r: &Simulation)
        requires
            i < self.instances().len(),
        ensures
            *r == self.instances()[i as int],
    {
        &self.sims[i]
    }

    /// One tick of the driver: for each instance in registration order, run
    /// its pipeline exactly `steps.count()` times, then append its snapshot
    /// to the store. Within the tick the snapshots are appended strictly in
    /// registration order, one per instance, and every snapshot already in
    /// the store stays where it was. The tick ends the setup phase.
    pub fn tick(&mut self, steps: &SimulationSteps, collected_data: &mut ResultStore)
        requires
            old(self).wf(),
            steps.wf(),
            forall|i: int|
                0 <= i < old(self).instances().len() ==> (#[trigger] old(
                    self,
                ).instances()[i]).trials() + steps.count() * old(self).instances()[i].population()
                    <= u64::MAX,
        ensures
            final(self).wf(),
            final(self).started(),
            final(self).instances().len() == old(self).instances().len(),
            forall|i: int|
                0 <= i < old(self).instances().len() ==> ran_for(
                    #[trigger] old(self).instances()[i],
                    final(self).instances()[i],
                    steps.count(),
                ),
            final(collected_data)@.len() == old(collected_data)@.len() + old(
                self,
            ).instances().len(),
            forall|i: int|
                0 <= i < old(collected_data)@.len() ==> final(collected_data)@[i] == old(
                    collected_data,
                )@[i],
            forall|i: int|
                0 <= i < old(self).instances().len() ==> final(collected_data)@[old(
                    collected_data,
                )@.len() + i] == (#[trigger] final(self).instances()[i]).snapshot(),
    {
        let n = self.sims.len();
        let mut i: usize = 0;
        while i < n
            invariant
                0 <= i <= n,
                n == self.sims@.len(),
                n == old(self).instances().len(),
                steps.wf(),
                self.started == old(self).started(),
                forall|j: int| i <= j < n ==> self.sims@[j] == old(self).instances()[j],
                forall|j: int|
                    0 <= j < n ==> (#[trigger] old(self).instances()[j]).trials() + steps.count()
                        * old(self).instances()[j].population() <= u64::MAX,
                forall|j: int|
                    0 <= j < n ==> (#[trigger] old(self).instances()[j]).wf() && old(
                        self,
                    ).instances()[j].outcomes_clear(),
                forall|j: int|
                    0 <= j < i ==> ran_for(
                        #[trigger] old(self).instances()[j],
                        self.sims@[j],
                        steps.count(),
                    ),
                collected_data@.len() == old(collected_data)@.len() + i,
                forall|j: int|
                    0 <= j < old(collected_data)@.len() ==> #[trigger] collected_data@[j] == old(
                        collected_data,
                    )@[j],
                forall|j: int|
                    0 <= j < i ==> collected_data@[old(collected_data)@.len() + j] == (
                    #[trigger] self.sims@[j]).snapshot(),
            decreases n - i,
        {
            proof {
                assert(self.sims@[i as int] == old(self).instances()[i as int]);
                assert(old(self).instances()[i as int].wf());
            }
            run_simulation(&mut self.sims[i], steps);
            collect_data(collected_data, &self.sims[i]);
            i = i + 1;
        }
        proof {
            assert forall|j: int|
                0 <= j < n implies (#[trigger] self.sims@[j]).wf()
                && self.sims@[j].outcomes_clear() by {
                assert(ran_for(old(self).instances()[j], self.sims@[j], steps.count()));
            }
        }
        self.started = true;
    }
}

} // verus!
