use hemofit::ga::{
    best_index, build_next_generation, crossover, crossover_with_mask, generate_individual,
    make_offspring, mutate, mutate_with_mask, mutation_rate, plan_restarts, sort_population,
    tournament_pick, tournament_selection, Individual, OptimizationError, ELITE_COUNT,
    GENERATIONS, POPULATION_SIZE, TOURNAMENT_SIZE,
};
use hemofit::parameters::{HemodynamicParams, N_PARAMS};

fn mid_range_samples(base: &HemodynamicParams) -> Vec<u64> {
    base.parameters
        .iter()
        .map(|p| {
            let lo = f64::from_bits(p.range.0);
            let hi = f64::from_bits(p.range.1);
            f64::to_bits((lo + hi) / 2.0)
        })
        .collect()
}

fn individual(fitness: f64) -> Individual {
    Individual { params: HemodynamicParams::new(), fitness: fitness.to_bits() }
}

#[test]
fn hyperparameters_are_the_documented_ones() {
    assert_eq!(POPULATION_SIZE, 100);
    assert_eq!(GENERATIONS, 200);
    assert_eq!(ELITE_COUNT, 1);
    assert_eq!(TOURNAMENT_SIZE, 3);
}

#[test]
fn generated_individuals_respect_ranges_and_defaults() {
    let base = HemodynamicParams::new();
    let samples = mid_range_samples(&base);
    let fresh = generate_individual(&base, &samples);
    for (i, p) in fresh.parameters.iter().enumerate() {
        let b = base.parameters[i];
        assert_eq!(p.fitting, b.fitting);
        assert_eq!(p.default, b.default);
        assert_eq!(p.range, b.range);
        if b.fitting {
            assert_eq!(p.value, samples[i]);
            let v = f64::from_bits(p.value);
            assert!(f64::from_bits(p.range.0) <= v && v <= f64::from_bits(p.range.1));
        } else {
            assert_eq!(p.value, b.default);
        }
    }
}

#[test]
fn crossover_mask_picks_values_without_touching_structure() {
    let parent1 = HemodynamicParams::new();
    let mut parent2 = HemodynamicParams::new();
    for p in parent2.parameters.iter_mut() {
        if p.fitting {
            p.value = p.range.1;
        }
    }

    let all_off = vec![false; N_PARAMS];
    let child = crossover_with_mask(&parent1, &parent2, &all_off);
    for (c, a) in child.parameters.iter().zip(parent1.parameters.iter()) {
        assert_eq!(c.value, a.value);
        assert_eq!(c.fitting, a.fitting);
    }

    let all_on = vec![true; N_PARAMS];
    let child = crossover_with_mask(&parent1, &parent2, &all_on);
    for (i, c) in child.parameters.iter().enumerate() {
        let a = parent1.parameters[i];
        let b = parent2.parameters[i];
        assert_eq!(c.fitting, a.fitting);
        assert_eq!(c.default, a.default);
        assert_eq!(c.range, a.range);
        if a.fitting {
            assert_eq!(c.value, b.value);
        } else {
            assert_eq!(c.value, a.value);
        }
    }
}

#[test]
fn randomized_crossover_never_touches_flags_or_fixed_values() {
    let parent1 = HemodynamicParams::new();
    let mut parent2 = HemodynamicParams::new();
    for p in parent2.parameters.iter_mut() {
        if p.fitting {
            p.value = p.range.0;
        }
    }
    for _ in 0..20 {
        let child = crossover(&parent1, &parent2);
        for (i, c) in child.parameters.iter().enumerate() {
            let a = parent1.parameters[i];
            let b = parent2.parameters[i];
            assert_eq!(c.fitting, a.fitting);
            assert_eq!(c.default, a.default);
            assert_eq!(c.range, a.range);
            if a.fitting {
                assert!(c.value == a.value || c.value == b.value);
            } else {
                assert_eq!(c.value, a.value);
            }
        }
    }
}

#[test]
fn mutation_mask_changes_exactly_the_chosen_fitting_entries() {
    let mut individual = HemodynamicParams::new();
    let samples = mid_range_samples(&individual);
    let before = individual.parameters.clone();
    let mut mask = vec![false; N_PARAMS];
    mask[0] = true;  // Rcs: fitting
    let hr = hemofit::parameters::param_index("HR").unwrap();
    mask[hr] = true;  // HR: not fitting, must stay

    mutate_with_mask(&mut individual, &mask, &samples);
    for (i, p) in individual.parameters.iter().enumerate() {
        let b = before[i];
        assert_eq!(p.fitting, b.fitting);
        assert_eq!(p.default, b.default);
        assert_eq!(p.range, b.range);
        if i == 0 {
            assert_eq!(p.value, samples[0]);
        } else {
            assert_eq!(p.value, b.value, "entry {i} must not change");
        }
    }
}

#[test]
fn randomized_mutation_keeps_structure_and_fixed_values() {
    let mut individual = HemodynamicParams::new();
    let samples = mid_range_samples(&individual);
    let before = individual.parameters.clone();
    let (num, den) = mutation_rate(0, GENERATIONS);
    for _ in 0..10 {
        mutate(&mut individual, num, den, &samples);
    }
    for (i, p) in individual.parameters.iter().enumerate() {
        let b = before[i];
        assert_eq!(p.fitting, b.fitting);
        assert_eq!(p.default, b.default);
        assert_eq!(p.range, b.range);
        if b.fitting {
            assert!(p.value == b.value || p.value == samples[i]);
        } else {
            assert_eq!(p.value, b.value);
        }
    }
}

#[test]
fn mutation_rate_anneals_linearly_from_a_tenth_to_a_hundredth() {
    let (n0, d0) = mutation_rate(0, 200);
    assert_eq!((n0, d0), (20000, 200000));
    assert_eq!(n0 as f64 / d0 as f64, 0.1);

    let (n1, d1) = mutation_rate(200, 200);
    assert_eq!((n1, d1), (2000, 200000));
    assert_eq!(n1 as f64 / d1 as f64, 0.01);

    let (nh, dh) = mutation_rate(100, 200);
    assert_eq!((nh, dh), (11000, 200000));
    assert_eq!(nh as f64 / dh as f64, 0.055);
    // The rational is exact; the double-precision formula chain rounds.
    assert!((nh as f64 / dh as f64 - (0.1 - (0.1 - 0.01) * 100.0 / 200.0)).abs() < 1e-15);
}

#[test]
fn best_index_finds_the_minimum_and_shuns_nan() {
    let pop = vec![individual(3.0), individual(f64::NAN), individual(1.5), individual(2.0)];
    assert_eq!(best_index(&pop), 2);
    let pop = vec![individual(f64::NAN), individual(7.0)];
    assert_eq!(best_index(&pop), 1);
}

#[test]
fn tournament_pick_takes_the_fittest_competitor() {
    let pop = vec![individual(5.0), individual(1.0), individual(3.0), individual(f64::NAN)];
    assert_eq!(tournament_pick(&pop, &vec![0, 2]), 2);
    assert_eq!(tournament_pick(&pop, &vec![0, 1, 2]), 1);
    assert_eq!(tournament_pick(&pop, &vec![3, 0]), 0);
    assert_eq!(tournament_pick(&pop, &vec![3, 3]), 3);
}

#[test]
fn tournament_selection_returns_a_member() {
    let mut a = HemodynamicParams::new();
    a.parameters[0].value = f64::to_bits(401.0);
    let mut b = HemodynamicParams::new();
    b.parameters[0].value = f64::to_bits(402.0);
    let pop = vec![
        Individual { params: a, fitness: 1.0f64.to_bits() },
        Individual { params: b, fitness: 2.0f64.to_bits() },
    ];
    for _ in 0..20 {
        let winner = tournament_selection(&pop, TOURNAMENT_SIZE);
        let v = winner.parameters[0].value;
        assert!(v == f64::to_bits(401.0) || v == f64::to_bits(402.0));
    }
}

#[test]
fn sorting_ranks_ascending_with_nan_last() {
    let pop = vec![
        individual(4.0),
        individual(f64::NAN),
        individual(-1.0),
        individual(0.25),
        individual(f64::INFINITY),
    ];
    let before: Vec<u64> = pop.iter().map(|x| x.fitness).collect();
    let sorted = sort_population(pop);
    let after: Vec<u64> = sorted.iter().map(|x| x.fitness).collect();

    let expect: Vec<u64> = vec![
        (-1.0f64).to_bits(),
        0.25f64.to_bits(),
        4.0f64.to_bits(),
        f64::INFINITY.to_bits(),
        f64::NAN.to_bits(),
    ];
    assert_eq!(after, expect);

    let mut a = before.clone();
    let mut b = after.clone();
    a.sort_unstable();
    b.sort_unstable();
    assert_eq!(a, b, "sorting must permute, not alter");
}

#[test]
fn elitism_keeps_the_best_fitness_from_worsening() {
    let pop = vec![individual(9.0), individual(2.5), individual(4.0)];
    let sorted = sort_population(pop);
    let prev_best = sorted[0].fitness;
    assert_eq!(prev_best, 2.5f64.to_bits());

    let offspring = vec![individual(8.0), individual(7.0)];
    let next = build_next_generation(sorted, ELITE_COUNT, offspring);
    assert_eq!(next.len(), 1 + 2);
    assert_eq!(next[0].fitness, prev_best);
    let next_best = next[best_index(&next)].fitness;
    assert!(f64::from_bits(next_best) <= f64::from_bits(prev_best));
}

#[test]
fn offspring_relate_to_the_population_entry_by_entry() {
    let mut a = HemodynamicParams::new();
    let mut b = HemodynamicParams::new();
    for p in a.parameters.iter_mut() {
        if p.fitting {
            p.value = p.range.0;
        }
    }
    for p in b.parameters.iter_mut() {
        if p.fitting {
            p.value = p.range.1;
        }
    }
    let samples = mid_range_samples(&a);
    let pop = vec![
        Individual { params: a, fitness: 1.0f64.to_bits() },
        Individual { params: b, fitness: 2.0f64.to_bits() },
    ];
    let (num, den) = mutation_rate(0, GENERATIONS);
    for _ in 0..10 {
        let child = make_offspring(&pop, TOURNAMENT_SIZE, num, den, &samples);
        for (i, c) in child.parameters.iter().enumerate() {
            let pa = pop[0].params.parameters[i];
            let pb = pop[1].params.parameters[i];
            assert_eq!(c.fitting, pa.fitting);
            assert_eq!(c.default, pa.default);
            assert_eq!(c.range, pa.range);
            if pa.fitting {
                assert!(
                    c.value == pa.value || c.value == pb.value || c.value == samples[i],
                    "entry {i} came from nowhere"
                );
            } else {
                assert_eq!(c.value, pa.value);
            }
        }
    }
}

#[test]
fn a_zero_restart_count_is_invalid_config() {
    assert_eq!(plan_restarts(8, 0), Err(OptimizationError::InvalidConfig));
    assert_eq!(plan_restarts(8, 2), Ok(4));
    assert_eq!(plan_restarts(8, 3), Ok(2));
    assert_eq!(plan_restarts(2, 8), Ok(0));
}
