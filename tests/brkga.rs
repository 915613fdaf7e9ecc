use trade_evolver::brkga::{BrkgaConfig, BrkgaError, Individual, BRKGA};
use trade_evolver::chromosome::GENE_SCALE;

fn config(population_size: usize) -> BrkgaConfig {
    BrkgaConfig {
        elite_count: population_size / 10,
        mutant_count: population_size / 5,
        population_size,
        max_iterations: 1000,
        bias_numerator: 3,
        bias_denominator: 5,
    }
}

fn chromosomes(b: &BRKGA<f32>) -> Vec<Vec<u32>> {
    b.population().iter().map(|i| i.cromossome.clone()).collect()
}

fn rank_by_fitness(b: &mut BRKGA<f32>) {
    let mut order: Vec<usize> = (0..b.population().len()).collect();
    let pop = b.population();
    order.sort_by(|x, y| pop[*x].fitness.partial_cmp(&pop[*y].fitness).unwrap());
    assert!(b.rank(&order));
}

fn evaluate(b: &mut BRKGA<f32>) {
    evaluate_in(b, false);
}

fn evaluate_in(b: &mut BRKGA<f32>, reversed: bool) {
    let mut indices: Vec<usize> = (0..b.population().len()).collect();
    if reversed {
        indices.reverse();
    }
    for i in indices {
        if b.population()[i].fitness.is_none() {
            let sum: u64 = b.population()[i].cromossome.iter().map(|k| *k as u64).sum();
            b.set_fitness(i, sum as f32);
        }
    }
}

#[test]
fn test_new_brkga() {
    let cfg = BrkgaConfig { elite_count: 1500, mutant_count: 3000, population_size: 15000, max_iterations: 1000, bias_numerator: 3, bias_denominator: 5 };
    let brkga: BRKGA<f32> = BRKGA::new(1223, 36, cfg).ok().unwrap();
    assert_eq!(brkga.cromossome_size(), 36);
    assert_eq!(brkga.config(), cfg);
    assert_eq!(brkga.population().len(), 0);
}

#[test]
fn test_generate_random_invidiual() {
    let mut brkga: BRKGA<f32> = BRKGA::new(59841, 36, config(15000)).ok().unwrap();
    let first = brkga.random_individual();
    assert_eq!(first.cromossome.len(), 36);
    assert!(first.fitness.is_none());
    for k in first.cromossome.iter() {
        assert!(*k < GENE_SCALE);
    }
    let second = brkga.random_individual();
    assert_ne!(first.cromossome, second.cromossome);
}

#[test]
fn invalid_configurations_are_refused() {
    let mut cfg = config(100);
    cfg.elite_count = 80;
    cfg.mutant_count = 30;
    assert!(matches!(BRKGA::<f32>::new(1, 36, cfg), Err(BrkgaError::InvalidConfig)));
    let mut cfg = config(100);
    cfg.bias_numerator = 6;
    assert!(matches!(BRKGA::<f32>::new(1, 36, cfg), Err(BrkgaError::InvalidConfig)));
    let mut cfg = config(100);
    cfg.bias_denominator = 0;
    cfg.bias_numerator = 0;
    assert!(!cfg.check());
    let mut cfg = config(100);
    cfg.elite_count = 0;
    assert!(!cfg.check());
    assert!(config(100).check());
}

#[test]
fn same_seed_gives_the_same_chromosomes() {
    let run = |seed: u64, reversed: bool| {
        let mut b: BRKGA<f32> = BRKGA::new(seed, 36, config(50)).ok().unwrap();
        b.initial_population();
        let mut seen = vec![chromosomes(&b)];
        for _ in 0..3 {
            evaluate_in(&mut b, reversed);
            rank_by_fitness(&mut b);
            b.evolve_population();
            seen.push(chromosomes(&b));
        }
        seen
    };
    assert_eq!(run(18988547, false), run(18988547, true));
    assert_ne!(run(18988547, false), run(18988548, false));
}

#[test]
fn evolution_keeps_size_and_elites() {
    let cfg = config(40);
    let mut b: BRKGA<f32> = BRKGA::new(7, 36, cfg).ok().unwrap();
    b.initial_population();
    evaluate(&mut b);
    rank_by_fitness(&mut b);
    let elites = b.elite_population();
    assert_eq!(elites.len(), 4);
    b.evolve_population();
    let next = b.population();
    assert_eq!(next.len(), 40);
    for i in 0..cfg.mutant_count {
        assert!(next[i].fitness.is_none());
    }
    for (j, e) in elites.iter().enumerate() {
        assert_eq!(next[cfg.mutant_count + j].cromossome, e.cromossome);
        assert_eq!(next[cfg.mutant_count + j].fitness, e.fitness);
        assert!(e.fitness.is_some());
    }
    for i in cfg.mutant_count + cfg.elite_count..40 {
        assert!(next[i].fitness.is_none());
        assert_eq!(next[i].cromossome.len(), 36);
    }
}

#[test]
fn certain_bias_copies_the_elite_parent() {
    let mut cfg = config(20);
    cfg.bias_numerator = 5;
    let mut b: BRKGA<f32> = BRKGA::new(3, 8, cfg).ok().unwrap();
    b.initial_population();
    evaluate(&mut b);
    rank_by_fitness(&mut b);
    let elites: Vec<Vec<u32>> = b.elite_population().iter().map(|i| i.cromossome.clone()).collect();
    b.evolve_population();
    for i in cfg.mutant_count + cfg.elite_count..20 {
        assert!(elites.contains(&b.population()[i].cromossome));
    }
}

#[test]
fn rank_reorders_only_by_a_permutation() {
    let mut b: BRKGA<f32> = BRKGA::new(11, 4, config(10)).ok().unwrap();
    b.initial_population();
    let before = chromosomes(&b);
    assert!(!b.rank(&vec![0, 1, 2]));
    assert!(!b.rank(&vec![0, 0, 1, 2, 3, 4, 5, 6, 7, 8]));
    assert!(!b.rank(&vec![0, 1, 2, 3, 4, 5, 6, 7, 8, 10]));
    assert_eq!(chromosomes(&b), before);
    let order: Vec<usize> = (0..10).rev().collect();
    assert!(b.rank(&order));
    let after = chromosomes(&b);
    for j in 0..10 {
        assert_eq!(after[j], before[9 - j]);
    }
}

#[test]
fn individual_starts_unevaluated_and_duplicates_exactly() {
    let mut ind: Individual<f32> = Individual::new(vec![1, 2, 3]);
    assert!(ind.fitness.is_none());
    ind.fitness = Some(-10000.0);
    let copy = ind.duplicate();
    assert_eq!(copy.cromossome, vec![1, 2, 3]);
    assert_eq!(copy.fitness, Some(-10000.0));
}
