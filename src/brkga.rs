use vstd::prelude::*;
use rand::Rng;
use rand::SeedableRng;
use crate::chromosome::GENE_SCALE;

verus! {

#[verifier::external_type_specification]
#[verifier::external_body]
pub struct ExLcg128Xsl64(rand_pcg::Lcg128Xsl64);

/// Relies on rand_core's `SeedableRng::seed_from_u64` for `rand_pcg::Pcg64`: a
/// generator whose sequence of draws depends on the seed alone.
#[verifier::external_body]
fn seeded_generator(seed: u64) -> rand_pcg::Pcg64 {
    rand_pcg::Pcg64::seed_from_u64(seed)
}

/// Relies on rand's `Rng::gen_range`: a value drawn from `lo..hi`, which must not
/// be empty.
#[verifier::external_body]
fn draw_below(rng: &mut rand_pcg::Pcg64, lo: usize, hi: usize) -> (r: usize)
    requires
        lo < hi,
    ensures
        lo <= r < hi,
{
    rng.gen_range(lo..hi)
}

/// Relies on rand's `Rng::gen_ratio`: `true` with chance `numerator / denominator`,
/// never for a numerator of 0 and always when numerator and denominator are equal;
/// the denominator must be positive and at least the numerator.
#[verifier::external_body]
fn draw_ratio(rng: &mut rand_pcg::Pcg64, numerator: u32, denominator: u32) -> (r: bool)
    requires
        0 < denominator,
        numerator <= denominator,
    ensures
        numerator == 0 ==> !r,
        numerator == denominator ==> r,
{
    rng.gen_ratio(numerator, denominator)
}

/// Sizes and rates of the optimiser, all as integers: how many elites and mutants
/// each generation has, the population size, the number of generations, and the
/// chance `bias_numerator / bias_denominator` that a child takes a gene from its
/// elite parent.
#[derive(Clone, Copy, Debug, PartialEq, Eq, Structural)]
pub struct BrkgaConfig {
    pub elite_count: usize,
    pub mutant_count: usize,
    pub population_size: usize,
    pub max_iterations: usize,
    pub bias_numerator: u32,
    pub bias_denominator: u32,
}

impl BrkgaConfig {
    /// How many children each generation breeds.
    pub open spec fn children(&self) -> int {
        self.population_size - self.elite_count - self.mutant_count
    }

    /// Elites and mutants fit in the population, the bias is a probability, and
    /// where children are bred there is an elite and a non-elite to pick parents from.
    pub open spec fn is_valid(&self) -> bool {
        &&& self.elite_count + self.mutant_count <= self.population_size
        &&& 0 < self.bias_denominator
        &&& self.bias_numerator <= self.bias_denominator
        &&& self.children() > 0 ==> 0 < self.elite_count < self.population_size
    }

    /// Index of the first elite in a ranked population.
    pub open spec fn elite_start(&self) -> int {
        self.population_size - self.elite_count
    }

    /// Checks `is_valid`.
    pub fn check(&self) -> (r: bool)
        ensures
            r == self.is_valid(),
    {
        if self.population_size < self.elite_count
            || self.population_size - self.elite_count < self.mutant_count {
            return false;
        }
        if self.bias_denominator == 0 || self.bias_numerator > self.bias_denominator {
            return false;
        }
        let children = self.population_size - self.elite_count - self.mutant_count;
        !(children > 0 && (self.elite_count == 0 || self.elite_count >= self.population_size))
    }
}

/// A configuration the optimiser refuses.
#[derive(Clone, Copy, Debug, PartialEq, Eq, Structural)]
pub enum BrkgaError {
    /// The configuration is not valid (see `BrkgaConfig::is_valid`).
    InvalidConfig,
}

/// A chromosome of random keys and its fitness, `None` until evaluated.
#[derive(Debug)]
pub struct Individual<F> {
    pub fitness: Option<F>,
    pub cromossome: Vec<u32>,
}

impl<F> View for Individual<F> {
    type V = (Option<F>, Seq<u32>);

    open spec fn view(&self) -> (Option<F>, Seq<u32>) {
        (self.fitness, self.cromossome@)
    }
}

/// Every key stands for a gene in `[0, 1)`.
pub open spec fn fresh_keys(keys: Seq<u32>, len: nat) -> bool {
    &&& keys.len() == len
    &&& forall|g: int| 0 <= g < keys.len() ==> #[trigger] keys[g] < GENE_SCALE
}

/// `child` takes each gene from `elite` or from `other` at the same position; all
/// from `elite` when the bias is certain, all from `other` when it is nil.
pub open spec fn child_of(child: Seq<u32>, elite: Seq<u32>, other: Seq<u32>, config: BrkgaConfig) -> bool {
    &&& child.len() == elite.len()
    &&& child.len() == other.len()
    &&& forall|g: int| 0 <= g < child.len() ==> #[trigger] child[g] == elite[g] || child[g] == other[g]
    &&& config.bias_numerator == config.bias_denominator ==> child == elite
    &&& config.bias_numerator == 0 ==> child == other
}

/// `order` lists each of `0..n` exactly once.
pub open spec fn is_permutation(order: Seq<usize>, n: nat) -> bool {
    &&& order.len() == n
    &&& forall|k: int| 0 <= k < n ==> #[trigger] order[k] < n
    &&& forall|k1: int, k2: int| 0 <= k1 < n && 0 <= k2 < n && k1 != k2 ==> order[k1] != order[k2]
}

impl<F: Copy> Individual<F> {
    /// An individual not yet evaluated.
    pub fn new(cromossome: Vec<u32>) -> (r: Individual<F>)
        ensures
            r.fitness is None,
            r.cromossome@ == cromossome@,
    {
        Individual { fitness: None, cromossome }
    }

    /// A copy with the same chromosome and fitness.
    pub fn duplicate(&self) -> (r: Individual<F>)
        ensures
            r@ == self@,
    {
        let mut keys: Vec<u32> = Vec::new();
        let mut g: usize = 0;
        while g < self.cromossome.len()
            invariant
                g <= self.cromossome.len(),
                keys@ == self.cromossome@.subrange(0, g as int),
            decreases self.cromossome.len() - g,
        {
            keys.push(self.cromossome[g]);
            g = g + 1;
        }
        assert(keys@ == self.cromossome@);
        Individual { fitness: self.fitness, cromossome: keys }
    }
}

/// Biased random-key genetic algorithm over chromosomes of `u32` keys, with a
/// fitness of type `F` that the caller computes and ranks by.
pub struct BRKGA<F> {
    config: BrkgaConfig,
    cromossome_size: usize,
    rng: rand_pcg::Pcg64,
    population: Vec<Individual<F>>,
}

impl<F> View for BRKGA<F> {
    type V = Seq<(Option<F>, Seq<u32>)>;

    closed spec fn view(&self) -> Seq<(Option<F>, Seq<u32>)> {
        self.population@.map_values(|i: Individual<F>| i@)
    }
}

impl<F: Copy> BRKGA<F> {
    pub closed spec fn cfg(&self) -> BrkgaConfig {
        self.config
    }

    pub closed spec fn size(&self) -> nat {
        self.cromossome_size as nat
    }

    /// The population has its full size and every chromosome the right length.
    pub open spec fn ready(&self) -> bool {
        &&& self@.len() == self.cfg().population_size
        &&& forall|i: int| 0 <= i < self@.len() ==> (#[trigger] self@[i]).1.len() == self.size()
    }

    /// An optimiser drawing from a generator seeded with `seed`, with an empty population.
    pub fn new(seed: u64, cromossome_size: usize, config: BrkgaConfig) -> (r: Result<
        BRKGA<F>,
        BrkgaError,
    >)
        ensures
            r is Err <==> !config.is_valid(),
            r matches Ok(b) ==> {
                &&& b.cfg() == config
                &&& b.size() == cromossome_size
                &&& b@.len() == 0
            },
    {
        if !config.check() {
            return Err(BrkgaError::InvalidConfig);
        }
        let b = BRKGA { config, cromossome_size, rng: seeded_generator(seed), population: Vec::new() };
        assert(b@ =~= Seq::<(Option<F>, Seq<u32>)>::empty());
        Ok(b)
    }

    /// A fresh individual: each key drawn in turn from `0..GENE_SCALE`, no fitness.
    pub fn random_individual(&mut self) -> (r: Individual<F>)
        ensures
            r.fitness is None,
            fresh_keys(r.cromossome@, old(self).size()),
            final(self)@ == old(self)@,
            final(self).cfg() == old(self).cfg(),
            final(self).size() == old(self).size(),
    {
        let mut keys: Vec<u32> = Vec::new();
        let mut g: usize = 0;
        while g < self.cromossome_size
            invariant
                g <= self.cromossome_size,
                fresh_keys(keys@, g as nat),
                self@ == old(self)@,
                self.cfg() == old(self).cfg(),
                self.size() == old(self).size(),
            decreases self.cromossome_size - g,
        {
            let key = draw_below(&mut self.rng, 0, GENE_SCALE as usize) as u32;
            keys.push(key);
            g = g + 1;
        }
        Individual { fitness: None, cromossome: keys }
    }

    /// Replaces the population with `population_size` fresh individuals.
    pub fn initial_population(&mut self)
        ensures
            final(self).ready(),
            forall|i: int| 0 <= i < final(self)@.len() ==> {
                &&& (#[trigger] final(self)@[i]).0 is None
                &&& fresh_keys(final(self)@[i].1, final(self).size())
            },
            final(self).cfg() == old(self).cfg(),
            final(self).size() == old(self).size(),
    {
        let mut next: Vec<Individual<F>> = Vec::new();
        while next.len() < self.config.population_size
            invariant
                next.len() <= self.cfg().population_size,
                forall|i: int| 0 <= i < next.len() ==> {
                    &&& (#[trigger] next@[i]).fitness is None
                    &&& fresh_keys(next@[i].cromossome@, self.size())
                },
                self.cfg() == old(self).cfg(),
                self.size() == old(self).size(),
            decreases self.cfg().population_size - next.len(),
        {
            let ind = self.random_individual();
            next.push(ind);
        }
        self.population = next;
    }

    /// The population, in its current order.
    pub fn population(&self) -> (r: &Vec<Individual<F>>)
        ensures
            r@.len() == self@.len(),
            forall|i: int| 0 <= i < r@.len() ==> (#[trigger] r@[i])@ == self@[i],
    {
        &self.population
    }

    /// Records the fitness of the individual at `index`.
    pub fn set_fitness(&mut self, index: usize, fitness: F)
        requires
            index < old(self)@.len(),
        ensures
            final(self)@ == old(self)@.update(index as int, (Some(fitness), old(self)@[index as int].1)),
            final(self).cfg() == old(self).cfg(),
            final(self).size() == old(self).size(),
    {
        let mut ind = self.population.remove(index);
        ind.fitness = Some(fitness);
        self.population.insert(index, ind);
        assert(self@ =~= old(self)@.update(index as int, (Some(fitness), old(self)@[index as int].1)));
    }

    /// Reorders the population so that position `j` holds the individual that was at
    /// `order[j]`. An `order` that is not a permutation leaves it as it was and gives `false`.
    pub fn rank(&mut self, order: &Vec<usize>) -> (r: bool)
        ensures
            r == is_permutation(order@, old(self)@.len()),
            r ==> final(self)@.len() == old(self)@.len(),
            r ==> forall|j: int| 0 <= j < order@.len() ==> #[trigger] final(self)@[j] == old(self)@[order@[j] as int],
            !r ==> final(self)@ == old(self)@,
            final(self).cfg() == old(self).cfg(),
            final(self).size() == old(self).size(),
    {
        let n = self.population.len();
        if order.len() != n {
            return false;
        }
        let mut seen: Vec<bool> = Vec::new();
        let mut k: usize = 0;
        while k < n
            invariant
                k <= n,
                seen@.len() == k,
                forall|x: int| 0 <= x < k ==> !(#[trigger] seen@[x]),
            decreases n - k,
        {
            seen.push(false);
            k = k + 1;
        }
        let mut j: usize = 0;
        while j < n
            invariant
                n == self.population@.len(),
                order@.len() == n,
                j <= n,
                seen@.len() == n,
                forall|x: int| 0 <= x < n ==> (#[trigger] seen@[x] <==> exists|k: int| 0 <= k < j && order@[k] == x),
                forall|k: int| 0 <= k < j ==> #[trigger] order@[k] < n,
                forall|k1: int, k2: int| 0 <= k1 < j && 0 <= k2 < j && k1 != k2 ==> order@[k1] != order@[k2],
            decreases n - j,
        {
            let o = order[j];
            if o >= n {
                return false;
            }
            if seen[o] {
                proof {
                    let k = choose|k: int| 0 <= k < j && order@[k] == o;
                    assert(order@[k] == order@[j as int]);
                }
                return false;
            }
            seen.set(o, true);
            j = j + 1;
        }
        let mut next: Vec<Individual<F>> = Vec::new();
        let mut j: usize = 0;
        while j < n
            invariant
                n == self.population@.len(),
                is_permutation(order@, n as nat),
                j <= n,
                next@.len() == j,
                forall|i: int| 0 <= i < j ==> (#[trigger] next@[i])@ == self.population@[order@[i] as int]@,
            decreases n - j,
        {
            let ind = self.population[order[j]].duplicate();
            next.push(ind);
            j = j + 1;
        }
        self.population = next;
        true
    }

    /// Copies of the elite individuals, the last `elite_count` of the population.
    pub fn elite_population(&self) -> (r: Vec<Individual<F>>)
        requires
            self.ready(),
            self.cfg().is_valid(),
        ensures
            r@.len() == self.cfg().elite_count,
            forall|j: int| 0 <= j < r@.len() ==> (#[trigger] r@[j])@ == self@[self.cfg().elite_start() + j],
    {
        let start = self.config.population_size - self.config.elite_count;
        let mut elites: Vec<Individual<F>> = Vec::new();
        let mut j: usize = 0;
        while j < self.config.elite_count
            invariant
                self.ready(),
                self.cfg().is_valid(),
                start == self.cfg().elite_start(),
                j <= self.cfg().elite_count,
                elites@.len() == j,
                forall|i: int| 0 <= i < j ==> (#[trigger] elites@[i])@ == self@[start + i],
            decreases self.cfg().elite_count - j,
        {
            let ind = self.population[start + j].duplicate();
            elites.push(ind);
            j = j + 1;
        }
        elites
    }

    /// A child of the individuals at `elite_parent` and `other_parent`: gene by gene,
    /// in order, a draw of the bias decides which parent gives it.
    fn crossover(&mut self, elite_parent: usize, other_parent: usize) -> (r: Individual<F>)
        requires
            old(self).ready(),
            old(self).cfg().is_valid(),
            elite_parent < old(self)@.len(),
            other_parent < old(self)@.len(),
        ensures
            r.fitness is None,
            child_of(r.cromossome@, old(self)@[elite_parent as int].1, old(self)@[other_parent as int].1, old(self).cfg()),
            final(self)@ == old(self)@,
            final(self).cfg() == old(self).cfg(),
            final(self).size() == old(self).size(),
    {
        let ghost a = self@[elite_parent as int].1;
        let ghost b = self@[other_parent as int].1;
        let mut keys: Vec<u32> = Vec::new();
        let mut g: usize = 0;
        while g < self.cromossome_size
            invariant
                self.ready(),
                self.cfg().is_valid(),
                elite_parent < self@.len(),
                other_parent < self@.len(),
                a == self@[elite_parent as int].1,
                b == self@[other_parent as int].1,
                a.len() == self.size(),
                b.len() == self.size(),
                g <= self.cromossome_size,
                keys@.len() == g,
                forall|x: int| 0 <= x < g ==> #[trigger] keys@[x] == a[x] || keys@[x] == b[x],
                self.cfg().bias_numerator == self.cfg().bias_denominator ==> keys@ == a.subrange(0, g as int),
                self.cfg().bias_numerator == 0 ==> keys@ == b.subrange(0, g as int),
                self@ == old(self)@,
                self.cfg() == old(self).cfg(),
                self.size() == old(self).size(),
            decreases self.cromossome_size - g,
        {
            let take_elite = draw_ratio(&mut self.rng, self.config.bias_numerator, self.config.bias_denominator);
            proof {
                assert(self@[elite_parent as int].1 == self.population@[elite_parent as int].cromossome@);
                assert(self@[other_parent as int].1 == self.population@[other_parent as int].cromossome@);
            }
            let key = if take_elite {
                self.population[elite_parent].cromossome[g]
            } else {
                self.population[other_parent].cromossome[g]
            };
            keys.push(key);
            proof {
                assert(a.subrange(0, g + 1) == a.subrange(0, g as int).push(a[g as int]));
                assert(b.subrange(0, g + 1) == b.subrange(0, g as int).push(b[g as int]));
            }
            g = g + 1;
        }
        assert(a.subrange(0, a.len() as int) == a);
        assert(b.subrange(0, b.len() as int) == b);
        Individual { fitness: None, cromossome: keys }
    }

    /// Breeds the next generation from a ranked population (worst first): first
    /// `mutant_count` fresh individuals, then the elites unchanged, fitness included,
    /// then children, each of a random elite and a random non-elite parent.
    pub fn evolve_population(&mut self)
        requires
            old(self).ready(),
            old(self).cfg().is_valid(),
        ensures
            final(self).ready(),
            final(self).cfg() == old(self).cfg(),
            final(self).size() == old(self).size(),
            final(self)@.len() == old(self)@.len(),
            forall|i: int| 0 <= i < old(self).cfg().mutant_count ==> {
                &&& (#[trigger] final(self)@[i]).0 is None
                &&& fresh_keys(final(self)@[i].1, old(self).size())
            },
            forall|j: int| 0 <= j < old(self).cfg().elite_count ==>
                #[trigger] final(self)@[old(self).cfg().mutant_count + j] == old(self)@[old(self).cfg().elite_start() + j],
            forall|i: int| old(self).cfg().mutant_count + old(self).cfg().elite_count <= i < old(self)@.len() ==> {
                &&& (#[trigger] final(self)@[i]).0 is None
                &&& exists|e: int, q: int| {
                    &&& old(self).cfg().elite_start() <= e < old(self)@.len()
                    &&& 0 <= q < old(self).cfg().elite_start()
                    &&& child_of(final(self)@[i].1, old(self)@[e].1, old(self)@[q].1, old(self).cfg())
                }
            },
    {
        let ghost prev = self@;
        let pop = self.config.population_size;
        let mutants = self.config.mutant_count;
        let elites = self.config.elite_count;
        let start = pop - elites;
        let mut next: Vec<Individual<F>> = Vec::new();
        while next.len() < mutants
            invariant
                self@ == prev,
                self.ready(),
                self.cfg().is_valid(),
                self.cfg() == old(self).cfg(),
                self.size() == old(self).size(),
                mutants == self.cfg().mutant_count,
                next.len() <= mutants,
                forall|i: int| 0 <= i < next.len() ==> {
                    &&& (#[trigger] next@[i]).fitness is None
                    &&& fresh_keys(next@[i].cromossome@, self.size())
                },
            decreases mutants - next.len(),
        {
            let ind = self.random_individual();
            next.push(ind);
        }
        let mut j: usize = 0;
        while j < elites
            invariant
                self@ == prev,
                self.ready(),
                self.cfg().is_valid(),
                self.cfg() == old(self).cfg(),
                self.size() == old(self).size(),
                mutants == self.cfg().mutant_count,
                elites == self.cfg().elite_count,
                start == self.cfg().elite_start(),
                pop == self.cfg().population_size,
                j <= elites,
                next.len() == mutants + j,
                forall|i: int| 0 <= i < mutants ==> {
                    &&& (#[trigger] next@[i]).fitness is None
                    &&& fresh_keys(next@[i].cromossome@, self.size())
                },
                forall|i: int| 0 <= i < j ==> (#[trigger] next@[mutants + i])@ == prev[start + i],
            decreases elites - j,
        {
            let ind = self.population[start + j].duplicate();
            next.push(ind);
            j = j + 1;
        }
        while next.len() < pop
            invariant
                self@ == prev,
                self.ready(),
                self.cfg().is_valid(),
                self.cfg() == old(self).cfg(),
                self.size() == old(self).size(),
                mutants == self.cfg().mutant_count,
                elites == self.cfg().elite_count,
                start == self.cfg().elite_start(),
                pop == self.cfg().population_size,
                mutants + elites <= next.len() <= pop,
                forall|i: int| 0 <= i < mutants ==> {
                    &&& (#[trigger] next@[i]).fitness is None
                    &&& fresh_keys(next@[i].cromossome@, self.size())
                },
                forall|i: int| 0 <= i < elites ==> (#[trigger] next@[mutants + i])@ == prev[start + i],
                forall|i: int| mutants + elites <= i < next.len() ==> {
                    &&& (#[trigger] next@[i]).fitness is None
                    &&& next@[i].cromossome@.len() == self.size()
                    &&& exists|e: int, q: int| {
                        &&& start <= e < pop
                        &&& 0 <= q < start
                        &&& child_of(next@[i].cromossome@, prev[e].1, prev[q].1, self.cfg())
                    }
                },
            decreases pop - next.len(),
        {
            let e = draw_below(&mut self.rng, start, pop);
            let q = draw_below(&mut self.rng, 0, start);
            let child = self.crossover(e, q);
            proof {
                assert(child_of(child.cromossome@, prev[e as int].1, prev[q as int].1, self.cfg()));
            }
            next.push(child);
        }
        self.population = next;
        proof {
            assert forall|i: int| 0 <= i < self@.len() implies (#[trigger] self@[i]).1.len() == self.size() by {
                if i < mutants {
                } else if i < mutants + elites {
                    let k = i - mutants;
                    assert(next@[mutants + k]@ == prev[start + k]);
                } else {
                }
            }
            assert forall|j: int| 0 <= j < elites implies #[trigger] self@[mutants + j] == prev[start + j] by {
                assert(next@[mutants + j]@ == prev[start + j]);
            }
        }
    }

    /// The configuration.
    pub fn config(&self) -> (r: BrkgaConfig)
        ensures
            r == self.cfg(),
    {
        self.config
    }

    /// The number of keys in each chromosome.
    pub fn cromossome_size(&self) -> (r: usize)
        ensures
            r == self.size(),
    {
        self.cromossome_size
    }
}

} // verus!
