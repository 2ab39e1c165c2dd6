//! The generation-based evolutionary search over the fitting-enabled
//! parameters.
//!
//! Fitness values are IEEE-754 double encodings compared in the order of
//! `crate::order`: ascending, with every NaN ranking worst, so a failed
//! (non-finite) evaluation can never displace a finite one.  Integer
//! randomness (tournament picks, crossover bits, mutation decisions) is
//! drawn here from the thread-local generator; the uniform resampling of a
//! parameter value is floating-point work, so each mutation step receives
//! one pre-drawn in-range sample per parameter from the caller and uses the
//! samples of the entries it decides to change.

use vstd::prelude::*;
use vstd::multiset::Multiset;
use rand::RngExt;
use crate::order::{fitness_le, fitness_is_le, in_closed_range};
use crate::parameters::{HemodynamicParams, Parameter, with_value, N_PARAMS};

verus! {

/// Individuals per population.
pub const POPULATION_SIZE: usize = 100;

/// Generations per restart.
pub const GENERATIONS: usize = 200;

/// Individuals carried over unchanged at each generation boundary.
pub const ELITE_COUNT: usize = 1;

/// Competitors per tournament draw.
pub const TOURNAMENT_SIZE: usize = 3;

/// A parameter set together with the fitness its simulation scored.
pub struct Individual {
    pub params: HemodynamicParams,
    pub fitness: u64,
}

/// Failures surfaced to the caller of the optimizer.
#[derive(Clone, Copy, PartialEq, Eq, Structural, Debug)]
pub enum OptimizationError {
    /// Malformed input: a restart count of zero.
    InvalidConfig,
    /// Structural failure inside a restart (no cycle window in a trajectory).
    Internal,
    /// Every restart failed.
    AllRestartsFailed,
}

/// Relies on rand::RngExt::random_range on the thread-local generator: a
/// uniform draw from `0..n`; the call panics only when the range is empty.
#[verifier::external_body]
fn random_below(n: usize) -> (r: usize)
    requires
        n > 0,
    ensures
        r < n,
{
    rand::rng().random_range(0..n)
}

/// Relies on rand::RngExt::random for `bool`: a fair draw, each outcome
/// with probability one half.
#[verifier::external_body]
fn random_flip() -> bool {
    rand::rng().random()
}

/// A draw that is true with probability exactly `num / den`.
fn bernoulli(num: usize, den: usize) -> bool
    requires
        den >= 1,
{
    random_below(den) < num
}

/// Index of a fittest individual: its fitness ranks at or below every
/// other, with NaN encodings ranking worst.
pub fn best_index(population: &Vec<Individual>) -> (r: usize)
    requires
        population@.len() >= 1,
    ensures
        r < population@.len(),
        forall|i: int|
            0 <= i < population@.len() ==> fitness_le(
                population@[r as int].fitness,
                population@[i].fitness,
            ),
{
    let mut best: usize = 0;
    let n = population.len();
    for i in 1..n
        invariant
            n == population@.len(),
            best < i <= n,
            forall|j: int|
                0 <= j < i ==> fitness_le(population@[best as int].fitness, population@[j].fitness),
    {
        if !fitness_is_le(population[best].fitness, population[i].fitness) {
            proof {
                crate::order::lemma_fitness_le_total(
                    population@[best as int].fitness,
                    population@[i as int].fitness,
                );
                assert forall|j: int| 0 <= j < i + 1 implies fitness_le(
                    population@[i as int].fitness,
                    population@[j].fitness,
                ) by {
                    if j < i {
                        crate::order::lemma_fitness_le_transitive(
                            population@[i as int].fitness,
                            population@[best as int].fitness,
                            population@[j].fitness,
                        );
                    }
                }
            }
            best = i;
        }
    }
    best
}

/// The tournament winner among the picked competitors: a picked index whose
/// fitness ranks at or below that of every picked competitor.
pub fn tournament_pick(population: &Vec<Individual>, picks: &Vec<usize>) -> (w: usize)
    requires
        picks@.len() >= 1,
        forall|i: int| 0 <= i < picks@.len() ==> picks@[i] < population@.len(),
    ensures
        w < population@.len(),
        exists|i: int| 0 <= i < picks@.len() && w == picks@[i],
        forall|i: int|
            0 <= i < picks@.len() ==> fitness_le(
                population@[w as int].fitness,
                population@[picks@[i] as int].fitness,
            ),
{
    let mut w: usize = picks[0];
    let n = picks.len();
    for k in 1..n
        invariant
            n == picks@.len(),
            forall|i: int| 0 <= i < picks@.len() ==> picks@[i] < population@.len(),
            w < population@.len(),
            exists|i: int| 0 <= i < picks@.len() && w == picks@[i],
            forall|t: int|
                0 <= t < k ==> fitness_le(
                    population@[w as int].fitness,
                    population@[picks@[t] as int].fitness,
                ),
    {
        let c = picks[k];
        if !fitness_is_le(population[w].fitness, population[c].fitness) {
            proof {
                crate::order::lemma_fitness_le_total(
                    population@[w as int].fitness,
                    population@[c as int].fitness,
                );
                assert forall|t: int| 0 <= t < k + 1 implies fitness_le(
                    population@[c as int].fitness,
                    population@[picks@[t] as int].fitness,
                ) by {
                    if t < k {
                        crate::order::lemma_fitness_le_transitive(
                            population@[c as int].fitness,
                            population@[w as int].fitness,
                            population@[picks@[t] as int].fitness,
                        );
                    }
                }
            }
            w = c;
        }
    }
    w
}

/// Tournament selection: draw `tournament_size` competitors uniformly with
/// replacement and return a copy of the parameters of the fittest draw.
pub fn tournament_selection(population: &Vec<Individual>, tournament_size: usize) -> (r:
    HemodynamicParams)
    requires
        population@.len() >= 1,
        tournament_size >= 1,
    ensures
        exists|i: int| 0 <= i < population@.len() && r@ == population@[i].params@,
{
    let mut picks: Vec<usize> = Vec::new();
    let n = population.len();
    for k in 0..tournament_size
        invariant
            n == population@.len(),
            n >= 1,
            picks@.len() == k,
            forall|i: int| 0 <= i < picks@.len() ==> picks@[i] < population@.len(),
    {
        picks.push(random_below(n));
    }
    let w = tournament_pick(population, &picks);
    population[w].params.clone()
}

/// A fresh individual from the template: every fitting-enabled parameter
/// takes the supplied uniform sample from its own range, every other
/// parameter keeps the template's entry unchanged.
pub fn generate_individual(base: &HemodynamicParams, samples: &Vec<u64>) -> (r: HemodynamicParams)
    requires
        base.wf(),
        samples@.len() == N_PARAMS,
        forall|i: int|
            0 <= i < N_PARAMS && base@[i].fitting ==> in_closed_range(
                samples@[i],
                base@[i].range.0,
                base@[i].range.1,
            ),
    ensures
        r.wf(),
        forall|i: int|
            0 <= i < N_PARAMS && base@[i].fitting ==> r@[i] == with_value(base@[i], samples@[i]),
        forall|i: int| 0 <= i < N_PARAMS && !base@[i].fitting ==> r@[i] == base@[i],
        forall|i: int|
            0 <= i < N_PARAMS && r@[i].fitting ==> in_closed_range(
                r@[i].value,
                r@[i].range.0,
                r@[i].range.1,
            ),
{
    let mut r = base.clone();
    for i in 0..N_PARAMS
        invariant
            base.wf(),
            r@.len() == N_PARAMS,
            samples@.len() == N_PARAMS,
            forall|j: int|
                0 <= j < N_PARAMS && base@[j].fitting ==> in_closed_range(
                    samples@[j],
                    base@[j].range.0,
                    base@[j].range.1,
                ),
            forall|j: int|
                0 <= j < i && base@[j].fitting ==> r@[j] == with_value(base@[j], samples@[j]),
            forall|j: int| 0 <= j < N_PARAMS && !base@[j].fitting ==> r@[j] == base@[j],
            forall|j: int| i <= j < N_PARAMS ==> r@[j] == base@[j],
    {
        if r.parameters[i].fitting {
            let mut p = r.parameters[i];
            p.value = samples[i];
            r.parameters[i] = p;
        }
    }
    r
}

/// Uniform crossover with an explicit mask: the child starts as parent 1;
/// where the mask bit is set and the parameter is fitting-enabled, the
/// value is taken from parent 2.  Flags, defaults and ranges always come
/// from parent 1, and no non-fitting value changes.
pub fn crossover_with_mask(
    parent1: &HemodynamicParams,
    parent2: &HemodynamicParams,
    mask: &Vec<bool>,
) -> (child: HemodynamicParams)
    requires
        parent1.wf(),
        parent2.wf(),
        mask@.len() == N_PARAMS,
    ensures
        child.wf(),
        forall|i: int|
            0 <= i < N_PARAMS ==> child@[i] == (if parent1@[i].fitting && mask@[i] {
                with_value(parent1@[i], parent2@[i].value)
            } else {
                parent1@[i]
            }),
{
    let mut child = parent1.clone();
    for i in 0..N_PARAMS
        invariant
            parent1.wf(),
            parent2.wf(),
            mask@.len() == N_PARAMS,
            child@.len() == N_PARAMS,
            forall|j: int|
                0 <= j < i ==> child@[j] == (if parent1@[j].fitting && mask@[j] {
                    with_value(parent1@[j], parent2@[j].value)
                } else {
                    parent1@[j]
                }),
            forall|j: int| i <= j < N_PARAMS ==> child@[j] == parent1@[j],
    {
        if child.parameters[i].fitting && mask[i] {
            let mut p = child.parameters[i];
            p.value = parent2.parameters[i].value;
            child.parameters[i] = p;
        }
    }
    child
}

/// Uniform crossover: each fitting-enabled value independently has a fair
/// chance of coming from parent 2.  Whatever was drawn, the child keeps
/// parent 1's flags, defaults, ranges and non-fitting entries, and every
/// fitting value comes from one of the two parents.
pub fn crossover(parent1: &HemodynamicParams, parent2: &HemodynamicParams) -> (child:
    HemodynamicParams)
    requires
        parent1.wf(),
        parent2.wf(),
    ensures
        child.wf(),
        forall|i: int|
            0 <= i < N_PARAMS ==> child@[i] == parent1@[i] || (parent1@[i].fitting && child@[i]
                == with_value(parent1@[i], parent2@[i].value)),
        forall|i: int| 0 <= i < N_PARAMS && !parent1@[i].fitting ==> child@[i] == parent1@[i],
{
    let mut mask: Vec<bool> = Vec::new();
    for k in 0..N_PARAMS
        invariant
            mask@.len() == k,
    {
        mask.push(random_flip());
    }
    crossover_with_mask(parent1, parent2, &mask)
}

/// What one mutation step does to one parameter: a fitting-enabled entry
/// whose decision bit is set takes the sample; anything else is unchanged.
pub open spec fn mutated(p: Parameter, decide: bool, sample: u64) -> Parameter {
    if p.fitting && decide {
        with_value(p, sample)
    } else {
        p
    }
}

/// Mutation with explicit decisions: where the decision bit is set and the
/// parameter is fitting-enabled, the value becomes the supplied sample.
/// Flags, defaults, ranges and non-fitting entries never change.
pub fn mutate_with_mask(individual: &mut HemodynamicParams, mask: &Vec<bool>, samples: &Vec<u64>)
    requires
        old(individual).wf(),
        mask@.len() == N_PARAMS,
        samples@.len() == N_PARAMS,
    ensures
        final(individual).wf(),
        forall|i: int|
            0 <= i < N_PARAMS ==> final(individual)@[i] == mutated(
                old(individual)@[i],
                mask@[i],
                samples@[i],
            ),
{
    let mut v: Vec<Parameter> = Vec::with_capacity(N_PARAMS);
    for i in 0..N_PARAMS
        invariant
            mask@.len() == N_PARAMS,
            samples@.len() == N_PARAMS,
            individual@.len() == N_PARAMS,
            individual@ == old(individual)@,
            v@.len() == i,
            forall|j: int|
                0 <= j < i ==> v@[j] == mutated(old(individual)@[j], mask@[j], samples@[j]),
    {
        let mut p = individual.parameters[i];
        if p.fitting && mask[i] {
            p.value = samples[i];
        }
        v.push(p);
    }
    individual.parameters = v;
}

/// Mutation: each fitting-enabled parameter is independently resampled with
/// probability `rate_num / rate_den`; the fresh value is the corresponding
/// pre-drawn uniform sample.  Whatever was drawn, flags, defaults, ranges
/// and non-fitting entries never change, and each fitting value either
/// stays or becomes its sample.
pub fn mutate(individual: &mut HemodynamicParams, rate_num: usize, rate_den: usize, samples: &Vec<
    u64,
>)
    requires
        old(individual).wf(),
        rate_den >= 1,
        samples@.len() == N_PARAMS,
    ensures
        final(individual).wf(),
        forall|i: int|
            0 <= i < N_PARAMS ==> final(individual)@[i] == old(individual)@[i] || (old(
                individual,
            )@[i].fitting && final(individual)@[i] == with_value(old(individual)@[i], samples@[i])),
        forall|i: int|
            0 <= i < N_PARAMS && !old(individual)@[i].fitting ==> final(individual)@[i] == old(
                individual,
            )@[i],
{
    let mut mask: Vec<bool> = Vec::new();
    for k in 0..N_PARAMS
        invariant
            rate_den >= 1,
            mask@.len() == k,
            individual@ == old(individual)@,
            samples@.len() == N_PARAMS,
    {
        mask.push(bernoulli(rate_num, rate_den));
    }
    mutate_with_mask(individual, &mask, samples)
}

/// The linearly annealed mutation probability at generation `g` of
/// `total`, as an exact rational: `(100·total − 90·g) / (1000·total)`,
/// which equals `0.1 − (0.1 − 0.01)·g/total`.
pub fn mutation_rate(generation: usize, total_generations: usize) -> (r: (usize, usize))
    requires
        1 <= total_generations <= 4_000_000,
        generation <= total_generations,
    ensures
        r.0 == 100 * total_generations - 90 * generation,
        r.1 == 1000 * total_generations,
        1 <= r.0 <= r.1,
{
    (100 * total_generations - 90 * generation, 1000 * total_generations)
}

/// How the machine is split: each of the `num_repeats` parallel restarts
/// gets an equal share of the `cpus` worker threads.  A restart count of
/// zero is malformed input and is rejected before any work starts.
pub fn plan_restarts(cpus: usize, num_repeats: usize) -> (r: Result<usize, OptimizationError>)
    ensures
        num_repeats == 0 ==> r == Err::<usize, OptimizationError>(OptimizationError::InvalidConfig),
        num_repeats >= 1 ==> r == Ok::<usize, OptimizationError>(cpus / num_repeats),
{
    if num_repeats == 0 {
        Err(OptimizationError::InvalidConfig)
    } else {
        Ok(cpus / num_repeats)
    }
}

/// Ascending fitness order, NaN encodings last.
pub open spec fn sorted_by_fitness(s: Seq<Individual>) -> bool {
    forall|i: int, j: int| 0 <= i < j < s.len() ==> fitness_le(s[i].fitness, s[j].fitness)
}

/// The best (lowest-ranking) fitness in a non-empty population.
pub open spec fn min_fitness(s: Seq<Individual>) -> u64
    recommends
        s.len() >= 1,
    decreases s.len(),
{
    if s.len() <= 1 {
        s[0].fitness
    } else if fitness_le(s[0].fitness, min_fitness(s.drop_first())) {
        s[0].fitness
    } else {
        min_fitness(s.drop_first())
    }
}

/// The best fitness ranks at or below every member's fitness.
pub proof fn lemma_min_fitness_le_all(s: Seq<Individual>)
    requires
        s.len() >= 1,
    ensures
        forall|i: int| 0 <= i < s.len() ==> fitness_le(min_fitness(s), s[i].fitness),
    decreases s.len(),
{
    if s.len() > 1 {
        let rest = s.drop_first();
        lemma_min_fitness_le_all(rest);
        assert forall|i: int| 0 <= i < s.len() implies fitness_le(min_fitness(s), s[i].fitness) by {
            if fitness_le(s[0].fitness, min_fitness(rest)) {
                if i > 0 {
                    assert(s[i] == rest[i - 1]);
                    crate::order::lemma_fitness_le_transitive(
                        s[0].fitness,
                        min_fitness(rest),
                        rest[i - 1].fitness,
                    );
                }
            } else {
                crate::order::lemma_fitness_le_total(s[0].fitness, min_fitness(rest));
                if i > 0 {
                    assert(s[i] == rest[i - 1]);
                }
            }
        }
    }
}

/// The best fitness is the fitness of some member.
pub proof fn lemma_min_fitness_is_reached(s: Seq<Individual>)
    requires
        s.len() >= 1,
    ensures
        exists|i: int| 0 <= i < s.len() && min_fitness(s) == s[i].fitness,
    decreases s.len(),
{
    if s.len() <= 1 {
        assert(min_fitness(s) == s[0].fitness);
    } else {
        let rest = s.drop_first();
        lemma_min_fitness_is_reached(rest);
        if fitness_le(s[0].fitness, min_fitness(rest)) {
            assert(min_fitness(s) == s[0].fitness);
        } else {
            let k = choose|k: int| 0 <= k < rest.len() && min_fitness(rest) == rest[k].fitness;
            assert(s[k + 1] == rest[k]);
            assert(min_fitness(s) == s[k + 1].fitness);
        }
    }
}

/// Elitism monotonicity: when the first `elite_count` individuals of a
/// sorted population survive unchanged into the next generation, the best
/// fitness of the next generation ranks at or below the best fitness of
/// the current one, whatever the offspring are.
pub proof fn lemma_elitism_monotone(
    prev: Seq<Individual>,
    offspring: Seq<Individual>,
    elite_count: int,
)
    requires
        1 <= elite_count <= prev.len(),
        sorted_by_fitness(prev),
    ensures
        ({
            let next = prev.subrange(0, elite_count) + offspring;
            fitness_le(min_fitness(next), min_fitness(prev))
        }),
{
    let next = prev.subrange(0, elite_count) + offspring;
    assert(next[0] == prev[0]);
    lemma_min_fitness_le_all(next);
    lemma_min_fitness_is_reached(prev);
    let k = choose|k: int| 0 <= k < prev.len() && min_fitness(prev) == prev[k].fitness;
    assert(fitness_le(min_fitness(next), next[0].fitness));
    crate::order::lemma_fitness_le_transitive(
        min_fitness(next),
        prev[0].fitness,
        prev[k].fitness,
    );
}

/// Sort a population ascending by fitness, NaN encodings sinking to the
/// end.  The result is a sorted permutation of the input.
pub fn sort_population(population: Vec<Individual>) -> (r: Vec<Individual>)
    ensures
        r@.len() == population@.len(),
        sorted_by_fitness(r@),
        r@.to_multiset() == population@.to_multiset(),
{
    broadcast use vstd::seq_lib::group_to_multiset_ensures;
    broadcast use vstd::multiset::group_multiset_axioms;

    let mut rest = population;
    let ghost orig = rest@;
    let mut out: Vec<Individual> = Vec::new();
    while rest.len() > 0
        invariant
            out@.to_multiset().add(rest@.to_multiset()) == orig.to_multiset(),
            sorted_by_fitness(out@),
            forall|i: int, j: int|
                0 <= i < out@.len() && 0 <= j < rest@.len() ==> fitness_le(
                    out@[i].fitness,
                    rest@[j].fitness,
                ),
        decreases rest@.len(),
    {
        let ghost prev_out = out@;
        let ghost prev_rest = rest@;
        let m = best_index(&rest);
        let x = rest.remove(m);
        out.push(x);
        proof {
            broadcast use vstd::seq_lib::group_to_multiset_ensures;
            broadcast use vstd::multiset::group_multiset_axioms;

            assert(prev_rest[m as int] == x);
            assert(prev_rest.to_multiset().count(x) > 0) by {
                assert(prev_rest.contains(x));
            }
            assert(out@.to_multiset().add(rest@.to_multiset()) =~= orig.to_multiset());
            assert forall|i: int, j: int|
                0 <= i < out@.len() && 0 <= j < rest@.len() implies fitness_le(
                out@[i].fitness,
                rest@[j].fitness,
            ) by {
                assert(rest@[j] == if j < m {
                    prev_rest[j]
                } else {
                    prev_rest[j + 1]
                });
                if i < prev_out.len() {
                    assert(out@[i] == prev_out[i]);
                } else {
                    assert(out@[i] == x);
                }
            }
            assert forall|i: int, j: int| 0 <= i < j < out@.len() implies fitness_le(
                out@[i].fitness,
                out@[j].fitness,
            ) by {
                if j == out@.len() - 1 {
                    assert(out@[j] == x);
                    assert(fitness_le(prev_out[i].fitness, prev_rest[m as int].fitness));
                }
            }
        }
    }
    proof {
        broadcast use vstd::seq_lib::group_to_multiset_ensures;
        broadcast use vstd::multiset::group_multiset_axioms;

        assert(rest@.to_multiset() =~= Multiset::empty());
        assert(out@.to_multiset() =~= orig.to_multiset());
        assert(out@.len() == out@.to_multiset().len());
        assert(orig.len() == orig.to_multiset().len());
    }
    out
}

/// The next generation: the first `elite_count` individuals of the sorted
/// current population survive unchanged, followed by the offspring.  The
/// best fitness never worsens.
pub fn build_next_generation(
    sorted: Vec<Individual>,
    elite_count: usize,
    offspring: Vec<Individual>,
) -> (r: Vec<Individual>)
    requires
        1 <= elite_count <= sorted@.len(),
        sorted_by_fitness(sorted@),
    ensures
        r@ == sorted@.subrange(0, elite_count as int) + offspring@,
        fitness_le(min_fitness(r@), min_fitness(sorted@)),
{
    let ghost prev = sorted@;
    let ghost off = offspring@;
    let mut r = sorted;
    r.truncate(elite_count);
    let mut tail = offspring;
    r.append(&mut tail);
    proof {
        assert(r@ == prev.subrange(0, elite_count as int) + off);
        lemma_elitism_monotone(prev, off, elite_count as int);
    }
    r
}

/// What one offspring entry may look like, over the matching entries of
/// its two parents and the pre-drawn sample: structure from parent 1, a
/// non-fitting entry taken from parent 1 unchanged, and a fitting value
/// from one of the parents or the sample.
pub open spec fn offspring_entry_ok(c: Parameter, pa: Parameter, pb: Parameter, s: u64) -> bool {
    &&& c.fitting == pa.fitting
    &&& c.default == pa.default
    &&& c.range == pa.range
    &&& (!pa.fitting ==> c == pa)
    &&& (pa.fitting ==> c.value == pa.value || c.value == pb.value || c.value == s)
}

/// One offspring, before evaluation: two independent tournament draws,
/// uniform crossover of the winners, then mutation at probability
/// `rate_num / rate_den` using the pre-drawn samples.  Whatever was drawn,
/// the child relates to two members of the population as
/// `offspring_entry_ok` states, entry by entry.
pub fn make_offspring(
    population: &Vec<Individual>,
    tournament_size: usize,
    rate_num: usize,
    rate_den: usize,
    samples: &Vec<u64>,
) -> (child: HemodynamicParams)
    requires
        population@.len() >= 1,
        tournament_size >= 1,
        rate_den >= 1,
        samples@.len() == N_PARAMS,
        forall|k: int| 0 <= k < population@.len() ==> population@[k].params@.len() == N_PARAMS,
    ensures
        child.wf(),
        exists|a: int, b: int|
            #![trigger population@[a].params, population@[b].params]
            0 <= a < population@.len() && 0 <= b < population@.len() && (forall|i: int|
                0 <= i < N_PARAMS ==> offspring_entry_ok(
                    child@[i],
                    population@[a].params@[i],
                    population@[b].params@[i],
                    samples@[i],
                )),
{
    let parent1 = tournament_selection(population, tournament_size);
    let parent2 = tournament_selection(population, tournament_size);
    let mut child = crossover(&parent1, &parent2);
    mutate(&mut child, rate_num, rate_den, samples);
    proof {
        let a = choose|a: int| 0 <= a < population@.len() && parent1@ == population@[a].params@;
        let b = choose|b: int| 0 <= b < population@.len() && parent2@ == population@[b].params@;
        assert forall|i: int| 0 <= i < N_PARAMS implies offspring_entry_ok(
            child@[i],
            population@[a].params@[i],
            population@[b].params@[i],
            samples@[i],
        ) by {
            assert(population@[a].params@[i] == parent1@[i]);
            assert(population@[b].params@[i] == parent2@[i]);
        }
        assert(0 <= a < population@.len() && 0 <= b < population@.len() && (forall|i: int|
            0 <= i < N_PARAMS ==> offspring_entry_ok(
                child@[i],
                population@[a].params@[i],
                population@[b].params@[i],
                samples@[i],
            )));
    }
    child
}

/// A NaN fitness never wins a tournament that includes a finite (or any
/// non-NaN) competitor: the winner's fitness ranks at or below every
/// picked competitor's, and a NaN ranks below nothing that is not NaN.
pub proof fn lemma_nan_never_wins_a_tournament(
    population: Seq<Individual>,
    picks: Seq<usize>,
    w: int,
)
    requires
        0 <= w < population.len(),
        forall|i: int|
            0 <= i < picks.len() ==> picks[i] < population.len() && fitness_le(
                population[w].fitness,
                population[picks[i] as int].fitness,
            ),
        exists|i: int|
            0 <= i < picks.len() && !crate::order::is_nan_bits(
                population[picks[i] as int].fitness,
            ),
    ensures
        !crate::order::is_nan_bits(population[w].fitness),
{
}

/// In a sorted population every NaN fitness sits in a suffix: nothing
/// non-NaN follows a NaN.
pub proof fn lemma_sorted_nan_sinks(s: Seq<Individual>, i: int, j: int)
    requires
        sorted_by_fitness(s),
        0 <= i < j < s.len(),
        crate::order::is_nan_bits(s[i].fitness),
    ensures
        crate::order::is_nan_bits(s[j].fitness),
{
    assert(fitness_le(s[i].fitness, s[j].fitness));
}

} // verus!
