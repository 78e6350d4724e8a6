use crate::errors::ConfigurationError;
use crate::probability::Probability;
use crate::rng::{bernoulli_draw, rng_from_seed};
use vstd::prelude::*;

verus! {

/// The ephemeral outcome an entity carries between the mutate stage that
/// attaches it and the reset stage that clears it.
#[derive(Clone, Copy, Debug, PartialEq, Eq, Structural)]
pub enum CoinState {
    Heads,
    Tails,
}

/// The smallest per-item unit of state inside an instance: one coin with
/// its own odds parameter, fixed at construction, and an optional ephemeral
/// outcome that one step attaches and clears again before it ends.
#[derive(Clone, Copy, Debug)]
pub struct Coin {
    odds: Probability,
    outcome: Option<CoinState>,
}

/// An immutable reading of one instance's configured parameter and
/// cumulative counters at a point in time. Once appended to the result
/// store a value of this type is never mutated.
#[derive(Clone, Copy, Debug, PartialEq, Eq, Structural)]
pub struct CoinSimResults {
    /// The probability parameter the instance was configured with.
    pub p: Probability,
    /// Cumulative trials: one per entity per recorded step.
    pub n_tosses: u64,
    /// Cumulative successes: one per entity whose recorded outcome was heads.
    pub n_heads: u64,
}

/// How many entities of `s` carry some outcome.
pub closed spec fn count_attached(s: Seq<Coin>) -> int
    decreases s.len(),
{
    if s.len() == 0 {
        0
    } else {
        count_attached(s.drop_last()) + if s.last().outcome is Some {
            1int
        } else {
            0int
        }
    }
}

/// How many entities of `s` carry a heads outcome.
pub closed spec fn count_heads(s: Seq<Coin>) -> int
    decreases s.len(),
{
    if s.len() == 0 {
        0
    } else {
        count_heads(s.drop_last()) + if s.last().outcome == Some(CoinState::Heads) {
            1int
        } else {
            0int
        }
    }
}

proof fn lemma_count_push(s: Seq<Coin>, c: Coin)
    ensures
        count_attached(s.push(c)) == count_attached(s) + if c.outcome is Some {
            1int
        } else {
            0int
        },
        count_heads(s.push(c)) == count_heads(s) + if c.outcome == Some(CoinState::Heads) {
            1int
        } else {
            0int
        },
{
    assert(s.push(c).drop_last() =~= s);
    assert(s.push(c).last() == c);
}

proof fn lemma_count_bounds(s: Seq<Coin>)
    ensures
        0 <= count_heads(s) <= count_attached(s) <= s.len(),
        (forall|i: int| 0 <= i < s.len() ==> (#[trigger] s[i]).outcome is Some) ==> count_attached(
            s,
        ) == s.len(),
        (forall|i: int| 0 <= i < s.len() ==> (#[trigger] s[i]).outcome == Some(CoinState::Heads))
            ==> count_heads(s) == s.len(),
        (forall|i: int| 0 <= i < s.len() ==> (#[trigger] s[i]).outcome == Some(CoinState::Tails))
            ==> count_heads(s) == 0,
    decreases s.len(),
{
    if s.len() > 0 {
        lemma_count_bounds(s.drop_last());
        assert(s.last() == s[s.len() - 1]);
        assert(forall|i: int| 0 <= i < s.len() - 1 ==> #[trigger] s.drop_last()[i] == s[i]);
    }
}

/// An isolated simulation instance: a fixed population of entities, a
/// private seeded generator, and the running counter pair, owned together
/// so that no state is ever shared with another instance.
pub struct Simulation {
    entities: Vec<Coin>,
    rng: rand::rngs::SmallRng,
    results: CoinSimResults,
}

/// The generator seed every instance is constructed with unless the caller
/// picks another: fixed so that repeated runs reproduce the same counters.
pub const DEFAULT_SEED: u64 = 42;

impl Simulation {
    /// The probability parameter the instance was configured with.
    pub closed spec fn parameter(self) -> Probability {
        self.results.p
    }

    /// The fixed number of entities in the instance.
    pub closed spec fn population(self) -> nat {
        self.entities@.len()
    }

    /// Cumulative trials recorded so far.
    pub closed spec fn trials(self) -> u64 {
        self.results.n_tosses
    }

    /// Cumulative successes recorded so far.
    pub closed spec fn successes(self) -> u64 {
        self.results.n_heads
    }

    /// The outcome entity `i` currently carries, if any.
    pub closed spec fn outcome_at(self, i: int) -> Option<CoinState> {
        self.entities@[i].outcome
    }

    /// No entity carries an outcome: the shape the instance has between
    /// steps, established at construction and restored by the reset stage.
    pub open spec fn outcomes_clear(self) -> bool {
        forall|i: int| 0 <= i < self.population() ==> self.outcome_at(i) is None
    }

    /// Every entity carries exactly one outcome: the shape the mutate stage
    /// leaves behind.
    pub open spec fn outcomes_attached(self) -> bool {
        forall|i: int| 0 <= i < self.population() ==> self.outcome_at(i) is Some
    }

    /// Every entity's own parameter equals the instance parameter.
    pub closed spec fn odds_uniform(self) -> bool {
        forall|i: int|
            0 <= i < self.entities@.len() ==> (#[trigger] self.entities@[i]).odds
                == self.results.p
    }

    /// Well-formedness: the configuration was validated, the population is
    /// positive, and the counters satisfy `successes <= trials`. Every
    /// constructor establishes this and every stage preserves it.
    pub open spec fn wf(self) -> bool {
        &&& self.parameter().valid()
        &&& 1 <= self.population()
        &&& self.successes() <= self.trials()
        &&& self.odds_uniform()
    }

    /// The snapshot of the instance's parameter and counters at this point.
    pub open spec fn snapshot(self) -> CoinSimResults {
        CoinSimResults { p: self.parameter(), n_tosses: self.trials(), n_heads: self.successes() }
    }

    /// Validates the configuration and builds an instance with `n_tosses`
    /// entities, counters at zero, no outcome attached anywhere, and a
    /// private generator seeded with `seed`. The entity count is accepted
    /// exactly when it is positive; a rejected instance is never built.
    pub fn with_seed(p: Probability, n_tosses: i64, seed: u64) -> (r: Result<
        Simulation,
        ConfigurationError,
    >)
        requires
            p.valid(),
        ensures
            (1 <= n_tosses) <==> r is Ok,
            r matches Ok(sim) ==> {
                &&& sim.wf()
                &&& sim.parameter() == p
                &&& sim.population() == n_tosses
                &&& sim.trials() == 0
                &&& sim.successes() == 0
                &&& sim.outcomes_clear()
            },
            r matches Err(e) ==> e == ConfigurationError::NonPositiveEntityCount,
    {
        if n_tosses < 1 {
            return Err(ConfigurationError::NonPositiveEntityCount);
        }
        let mut entities: Vec<Coin> = Vec::new();
        let mut i: i64 = 0;
        while i < n_tosses
            invariant
                0 <= i <= n_tosses,
                entities@.len() == i,
                forall|j: int|
                    0 <= j < i ==> (#[trigger] entities@[j]).odds == p && entities@[j].outcome
                        is None,
            decreases n_tosses - i,
        {
            entities.push(Coin { odds: p, outcome: None });
            i = i + 1;
        }
        Ok(
            Simulation {
                entities,
                rng: rng_from_seed(seed),
                results: CoinSimResults { p, n_tosses: 0, n_heads: 0 },
            },
        )
    }

    /// Builds an instance as `with_seed` does, seeded with the fixed
    /// default seed.
    pub fn new(p: Probability, n_tosses: i64) -> (r: Result<Simulation, ConfigurationError>)
        requires
            p.valid(),
        ensures
            (1 <= n_tosses) <==> r is Ok,
            r matches Ok(sim) ==> {
                &&& sim.wf()
                &&& sim.parameter() == p
                &&& sim.population() == n_tosses
                &&& sim.trials() == 0
                &&& sim.successes() == 0
                &&& sim.outcomes_clear()
            },
            r matches Err(e) ==> e == ConfigurationError::NonPositiveEntityCount,
    {
        Simulation::with_seed(p, n_tosses, DEFAULT_SEED)
    }

    /// The configured parameter.
    pub fn p(&self) -> (r: Probability)
        ensures
            r == self.parameter(),
    {
        self.results.p
    }

    /// The fixed entity count.
    pub fn entity_count(&self) -> (n: usize)
        ensures
            n == self.population(),
    {
        self.entities.len()
    }

    /// Cumulative trials recorded so far.
    pub fn n_tosses(&self) -> (n: u64)
        ensures
            n == self.trials(),
    {
        self.results.n_tosses
    }

    /// Cumulative successes recorded so far.
    pub fn n_heads(&self) -> (n: u64)
        ensures
            n == self.successes(),
    {
        self.results.n_heads
    }

    /// Copies the parameter and counters into an immutable snapshot.
    pub fn take_snapshot(&self) -> (r: CoinSimResults)
        ensures
            r == self.snapshot(),
    {
        self.results
    }

    /// True exactly when no entity carries an outcome.
    pub fn has_no_outcomes(&self) -> (b: bool)
        ensures
            b == self.outcomes_clear(),
    {
        let n = self.entities.len();
        let mut i: usize = 0;
        while i < n
            invariant
                0 <= i <= n,
                n == self.entities@.len(),
                forall|j: int| 0 <= j < i ==> self.outcome_at(j) is None,
            decreases n - i,
        {
            if self.entities[i].outcome.is_some() {
                assert(self.outcome_at(i as int) is Some);
                return false;
            }
            i = i + 1;
        }
        true
    }

    /// True exactly when every entity carries an outcome.
    pub fn all_have_outcomes(&self) -> (b: bool)
        ensures
            b == self.outcomes_attached(),
    {
        let n = self.entities.len();
        let mut i: usize = 0;
        while i < n
            invariant
                0 <= i <= n,
                n == self.entities@.len(),
                forall|j: int| 0 <= j < i ==> self.outcome_at(j) is Some,
            decreases n - i,
        {
            if self.entities[i].outcome.is_none() {
                assert(self.outcome_at(i as int) is None);
                return false;
            }
            i = i + 1;
        }
        true
    }
}

/// Law: for every well-formed instance, at every point in time, the
/// successes counter never exceeds the trials counter. Since every
/// constructor establishes well-formedness and every stage preserves it,
/// the internal inconsistency `successes > trials` is unreachable, and the
/// library surfaces no error for it.
pub proof fn lemma_successes_le_trials(sim: Simulation)
    requires
        sim.wf(),
    ensures
        sim.successes() <= sim.trials(),
{
}

/// Mutate stage: for every entity, independently draw a new ephemeral
/// outcome from that entity's own parameter and the instance's private
/// generator, leaving exactly one outcome attached to each entity. The
/// parameter, the population and the counters do not change; when the
/// parameter is exactly one or exactly zero, every drawn outcome is heads
/// or tails respectively.
pub fn flip_coins(sim: &mut Simulation)
    requires
        old(sim).wf(),
    ensures
        final(sim).wf(),
        final(sim).parameter() == old(sim).parameter(),
        final(sim).population() == old(sim).population(),
        final(sim).trials() == old(sim).trials(),
        final(sim).successes() == old(sim).successes(),
        final(sim).outcomes_attached(),
        old(sim).parameter().is_one() ==> forall|i: int|
            0 <= i < final(sim).population() ==> final(sim).outcome_at(i) == Some(CoinState::Heads),
        old(sim).parameter().is_zero() ==> forall|i: int|
            0 <= i < final(sim).population() ==> final(sim).outcome_at(i) == Some(CoinState::Tails),
{
    let num = sim.results.p.numerator();
    let den = sim.results.p.denominator();
    let n = sim.entities.len();
    let mut i: usize = 0;
    while i < n
        invariant
            0 <= i <= n,
            n == sim.entities@.len(),
            num == sim.results.p.num(),
            den == sim.results.p.den(),
            1 <= den,
            num <= den,
            sim.results == old(sim).results,
            sim.entities@.len() == old(sim).entities@.len(),
            forall|j: int|
                0 <= j < n ==> (#[trigger] sim.entities@[j]).odds == old(sim).entities@[j].odds,
            forall|j: int| 0 <= j < i ==> (#[trigger] sim.entities@[j]).outcome is Some,
            num == den ==> forall|j: int|
                0 <= j < i ==> (#[trigger] sim.entities@[j]).outcome == Some(CoinState::Heads),
            num == 0 ==> forall|j: int|
                0 <= j < i ==> (#[trigger] sim.entities@[j]).outcome == Some(CoinState::Tails),
        decreases n - i,
    {
        let heads = bernoulli_draw(&mut sim.rng, num, den);
        let c = sim.entities[i];
        let outcome = if heads {
            CoinState::Heads
        } else {
            CoinState::Tails
        };
        sim.entities[i] = Coin { odds: c.odds, outcome: Some(outcome) };
        i = i + 1;
    }
}

/// Record stage: scan the entities carrying an outcome, incrementing the
/// trials counter once per such entity and the successes counter once per
/// heads outcome. This is the only stage that mutates the counters; the
/// entities themselves do not change.
pub fn record_coins(sim: &mut Simulation)
    requires
        old(sim).wf(),
        old(sim).trials() + old(sim).population() <= u64::MAX,
    ensures
        final(sim).wf(),
        final(sim).parameter() == old(sim).parameter(),
        final(sim).population() == old(sim).population(),
        final(sim).trials() == old(sim).trials() + count_attached(old(sim).view_entities()),
        final(sim).successes() == old(sim).successes() + count_heads(old(sim).view_entities()),
        forall|i: int| 0 <= i < final(sim).population() ==> final(sim).outcome_at(i) == old(
            sim,
        ).outcome_at(i),
{
    proof {
        lemma_count_bounds(sim.entities@);
    }
    let n = sim.entities.len();
    let mut i: usize = 0;
    while i < n
        invariant
            0 <= i <= n,
            n == sim.entities@.len(),
            sim.entities@ == old(sim).entities@,
            sim.results.p == old(sim).results.p,
            old(sim).results.n_heads <= old(sim).results.n_tosses,
            old(sim).results.n_tosses + n <= u64::MAX,
            sim.results.n_tosses == old(sim).results.n_tosses + count_attached(
                sim.entities@.subrange(0, i as int),
            ),
            sim.results.n_heads == old(sim).results.n_heads + count_heads(
                sim.entities@.subrange(0, i as int),
            ),
            0 <= count_heads(sim.entities@.subrange(0, i as int)) <= count_attached(
                sim.entities@.subrange(0, i as int),
            ) <= i,
        decreases n - i,
    {
        proof {
            let pre = sim.entities@.subrange(0, i as int);
            assert(sim.entities@.subrange(0, i + 1) =~= pre.push(sim.entities@[i as int]));
            lemma_count_push(pre, sim.entities@[i as int]);
        }
        match sim.entities[i].outcome {
            Some(CoinState::Heads) => {
                sim.results.n_tosses = sim.results.n_tosses + 1;
                sim.results.n_heads = sim.results.n_heads + 1;
            },
            Some(CoinState::Tails) => {
                sim.results.n_tosses = sim.results.n_tosses + 1;
            },
            None => {},
        }
        i = i + 1;
    }
    proof {
        assert(sim.entities@.subrange(0, n as int) =~= sim.entities@);
    }
}

/// Reset stage: clear the ephemeral outcome from every entity, returning
/// the instance to its pre-step shape. The parameter, the population, the
/// counters and every entity's own parameter do not change.
pub fn reset_coins(sim: &mut Simulation)
    requires
        old(sim).wf(),
    ensures
        final(sim).wf(),
        final(sim).parameter() == old(sim).parameter(),
        final(sim).population() == old(sim).population(),
        final(sim).trials() == old(sim).trials(),
        final(sim).successes() == old(sim).successes(),
        final(sim).outcomes_clear(),
{
    let n = sim.entities.len();
    let mut i: usize = 0;
    while i < n
        invariant
            0 <= i <= n,
            n == sim.entities@.len(),
            sim.results == old(sim).results,
            sim.entities@.len() == old(sim).entities@.len(),
            forall|j: int|
                0 <= j < n ==> (#[trigger] sim.entities@[j]).odds == old(sim).entities@[j].odds,
            forall|j: int| 0 <= j < i ==> (#[trigger] sim.entities@[j]).outcome is None,
        decreases n - i,
    {
        let c = sim.entities[i];
        sim.entities[i] = Coin { odds: c.odds, outcome: None };
        i = i + 1;
    }
}

impl Simulation {
    /// The entity sequence, for stating what the record stage counts.
    pub closed spec fn view_entities(self) -> Seq<Coin> {
        self.entities@
    }
}

/// What holds of an instance after its pipeline ran `k` steps: the
/// parameter and population are unchanged, the trials counter grew by
/// exactly `k` trials per entity, the successes counter grew by at most
/// that and monotonically, no outcome is left attached, and a parameter of
/// exactly one or exactly zero pins the successes counter exactly.
pub open spec fn ran_for(pre: Simulation, post: Simulation, k: int) -> bool {
    &&& post.wf()
    &&& post.parameter() == pre.parameter()
    &&& post.population() == pre.population()
    &&& post.trials() == pre.trials() + k * pre.population()
    &&& pre.successes() <= post.successes()
    &&& post.successes() - pre.successes() <= k * pre.population()
    &&& post.outcomes_clear()
    &&& (pre.parameter().is_one() ==> post.successes() == pre.successes() + k * pre.population())
    &&& (pre.parameter().is_zero() ==> post.successes() == pre.successes())
}

/// Law: the deterministic part of reproducibility. Two runs of `k` steps
/// from instances with identical configuration and identical counters end
/// with identical trials counters, and, whenever the parameter pins every
/// draw (exactly zero or exactly one), with identical successes counters
/// too. Reproducibility of the successes counter under other parameters
/// rests on the seeded generator, which lives outside the verified core.
pub proof fn lemma_counters_reproducible(
    a_pre: Simulation,
    a_post: Simulation,
    b_pre: Simulation,
    b_post: Simulation,
    k: int,
)
    requires
        ran_for(a_pre, a_post, k),
        ran_for(b_pre, b_post, k),
        a_pre.parameter() == b_pre.parameter(),
        a_pre.population() == b_pre.population(),
        a_pre.trials() == b_pre.trials(),
        a_pre.successes() == b_pre.successes(),
    ensures
        a_post.trials() == b_post.trials(),
        a_pre.parameter().is_one() || a_pre.parameter().is_zero() ==> a_post.successes()
            == b_post.successes(),
{
}

/// One step of the pipeline: the mutate, record and reset stages in that
/// order, each stage a barrier whose effects are complete before the next
/// begins. A step records exactly one trial per entity, at most one success
/// per entity, and leaves no outcome attached.
pub fn step(sim: &mut Simulation)
    requires
        old(sim).wf(),
        old(sim).trials() + old(sim).population() <= u64::MAX,
    ensures
        ran_for(*old(sim), *final(sim), 1),
{
    flip_coins(sim);
    proof {
        lemma_count_bounds(sim.view_entities());
        assert(forall|i: int|
            0 <= i < sim.view_entities().len() ==> (#[trigger] sim.view_entities()[i]).outcome
                == sim.outcome_at(i));
    }
    record_coins(sim);
    reset_coins(sim);
}

} // verus!
