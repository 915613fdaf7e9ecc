use vstd::prelude::*;

verus! {

/// A gene is a random key `k` standing for the fraction `k / GENE_SCALE`, so that a
/// valid key lies in `0..=GENE_SCALE` and its gene in `[0, 1]`.
pub const GENE_SCALE: u32 = 16777216;

/// Genes of a strategy: one for the leverage, then one block per trade rule.
pub const CHROMOSOME_LEN: usize = 36;

/// Genes that one trade rule reads, from the start of its block.
pub const RULE_GENES: usize = 17;

/// Where the long rule's block starts.
pub const LONG_RULE_OFFSET: usize = 1;

/// Where the short rule's block starts.
pub const SHORT_RULE_OFFSET: usize = 18;

pub open spec fn gene_ok(key: u32) -> bool {
    key <= GENE_SCALE
}

pub open spec fn genes_ok(keys: Seq<u32>) -> bool {
    forall|i: int| 0 <= i < keys.len() ==> gene_ok(#[trigger] keys[i])
}

pub open spec fn chromosome_ok(keys: Seq<u32>) -> bool {
    keys.len() == CHROMOSOME_LEN && genes_ok(keys)
}

/// The gene `key / GENE_SCALE` mapped affinely onto `[lo, hi]` and rounded down.
pub open spec fn scaled(lo: int, hi: int, key: int) -> int {
    lo + key * (hi - lo) / (GENE_SCALE as int)
}

/// Maps a gene onto the integers `lo..=hi`: `lo + floor(gene * (hi - lo))`.
pub fn map_key_to_range(lo: u32, hi: u32, key: u32) -> (r: u32)
    requires
        lo <= hi,
        gene_ok(key),
    ensures
        r == scaled(lo as int, hi as int, key as int),
        lo <= r <= hi,
{
    let span: u64 = (hi - lo) as u64;
    let s: u64 = GENE_SCALE as u64;
    assert(key as u64 * span <= s * span) by (nonlinear_arith)
        requires key <= s;
    assert(s * span <= 16777216 * 4294967295) by (nonlinear_arith)
        requires s == 16777216, span <= 4294967295;
    let prod: u64 = key as u64 * span;
    let v: u64 = prod / s;
    assert(v <= span) by (nonlinear_arith)
        requires v as int == prod as int / s as int, prod <= s * span, s > 0;
    lo + v as u32
}

/// Why a chromosome does not decode.
#[derive(Clone, Copy, Debug, PartialEq, Eq, Structural)]
pub enum DecodeError {
    /// It does not have `CHROMOSOME_LEN` genes.
    WrongLength,
    /// A key lies above `GENE_SCALE`, a gene above 1.
    GeneOutOfRange,
}

/// Checks that a chromosome has the right length and every gene in `[0, 1]`.
pub fn check_chromosome(keys: &Vec<u32>) -> (r: Result<(), DecodeError>)
    ensures
        r is Ok <==> chromosome_ok(keys@),
        r == Err::<(), DecodeError>(DecodeError::WrongLength) <==> keys@.len() != CHROMOSOME_LEN,
        r == Err::<(), DecodeError>(DecodeError::GeneOutOfRange) <==> keys@.len() == CHROMOSOME_LEN
            && !genes_ok(keys@),
{
    if keys.len() != CHROMOSOME_LEN {
        return Err(DecodeError::WrongLength);
    }
    let mut i: usize = 0;
    while i < keys.len()
        invariant
            i <= keys.len(),
            keys@.len() == CHROMOSOME_LEN,
            forall|j: int| 0 <= j < i ==> gene_ok(#[trigger] keys@[j]),
        decreases keys.len() - i,
    {
        if keys[i] > GENE_SCALE {
            assert(!gene_ok(keys@[i as int]));
            return Err(DecodeError::GeneOutOfRange);
        }
        i = i + 1;
    }
    Ok(())
}

/// The integer parameters of one trade rule: the periods of its indicators.
#[derive(Clone, Copy, Debug, PartialEq, Eq, Structural)]
pub struct RulePeriods {
    pub take_profit_atr: usize,
    pub stop_loss_atr: usize,
    pub rsi: usize,
    pub macd_fast: usize,
    pub macd_slow: usize,
    pub macd_signal: usize,
    pub ema: usize,
    pub sma: usize,
    pub take_profit_window: usize,
    pub stop_loss_window: usize,
}

/// The periods that the block of rule genes `g` gives.
pub open spec fn periods_of(g: Seq<u32>) -> RulePeriods
    recommends
        g.len() >= RULE_GENES,
{
    RulePeriods {
        take_profit_atr: scaled(2, 100, g[1] as int) as usize,
        stop_loss_atr: scaled(2, 50, g[3] as int) as usize,
        rsi: scaled(0, 100, g[4] as int) as usize,
        macd_fast: scaled(2, 100, g[7] as int) as usize,
        macd_slow: scaled(2, 100, g[8] as int) as usize,
        macd_signal: scaled(2, 100, g[9] as int) as usize,
        ema: scaled(2, 100, g[11] as int) as usize,
        sma: scaled(2, 100, g[13] as int) as usize,
        take_profit_window: scaled(1, 100, g[15] as int) as usize,
        stop_loss_window: scaled(1, 100, g[16] as int) as usize,
    }
}

/// Every period that a rule needs at least one sample for is at least one.
pub open spec fn periods_ok(p: RulePeriods) -> bool {
    &&& 2 <= p.take_profit_atr <= 100
    &&& 2 <= p.stop_loss_atr <= 50
    &&& p.rsi <= 100
    &&& 2 <= p.macd_fast <= 100
    &&& 2 <= p.macd_slow <= 100
    &&& 2 <= p.macd_signal <= 100
    &&& 2 <= p.ema <= 100
    &&& 2 <= p.sma <= 100
    &&& 1 <= p.take_profit_window <= 100
    &&& 1 <= p.stop_loss_window <= 100
}

fn period_gene(keys: &Vec<u32>, at: usize, lo: u32, hi: u32) -> (r: usize)
    requires
        at < keys@.len(),
        gene_ok(keys@[at as int]),
        lo <= hi,
    ensures
        r == scaled(lo as int, hi as int, keys@[at as int] as int),
        lo <= r <= hi,
{
    map_key_to_range(lo, hi, keys[at]) as usize
}

/// Decodes the periods of the rule whose block of genes starts at `offset`.
pub fn decode_rule_periods(keys: &Vec<u32>, offset: usize) -> (r: RulePeriods)
    requires
        offset + RULE_GENES <= keys@.len(),
        genes_ok(keys@),
    ensures
        r == periods_of(keys@.subrange(offset as int, offset + RULE_GENES)),
        periods_ok(r),
{
    let ghost g = keys@.subrange(offset as int, offset + RULE_GENES);
    let n = keys.len();
    assert(offset + RULE_GENES <= n);
    let r = RulePeriods {
        take_profit_atr: period_gene(keys, offset + 1, 2, 100),
        stop_loss_atr: period_gene(keys, offset + 3, 2, 50),
        rsi: period_gene(keys, offset + 4, 0, 100),
        macd_fast: period_gene(keys, offset + 7, 2, 100),
        macd_slow: period_gene(keys, offset + 8, 2, 100),
        macd_signal: period_gene(keys, offset + 9, 2, 100),
        ema: period_gene(keys, offset + 11, 2, 100),
        sma: period_gene(keys, offset + 13, 2, 100),
        take_profit_window: period_gene(keys, offset + 15, 1, 100),
        stop_loss_window: period_gene(keys, offset + 16, 1, 100),
    };
    assert(r == periods_of(g));
    r
}

/// The integer part of a decoded strategy: its leverage and the periods of its rules.
#[derive(Clone, Copy, Debug, PartialEq, Eq, Structural)]
pub struct DecodedPeriods {
    pub leverage: u8,
    pub long_rule: RulePeriods,
    pub short_rule: RulePeriods,
}

/// Decodes the leverage gene onto `1..=60`.
pub fn decode_leverage(key: u32) -> (r: u8)
    requires
        gene_ok(key),
    ensures
        r == scaled(1, 60, key as int),
        1 <= r <= 60,
{
    map_key_to_range(1, 60, key) as u8
}

/// Decodes the integer parameters of a chromosome. It fails exactly when the
/// chromosome is not valid; otherwise the leverage lies in `1..=60` and every
/// period in the range its gene maps onto.
pub fn decode_periods(keys: &Vec<u32>) -> (r: Result<DecodedPeriods, DecodeError>)
    ensures
        r is Ok <==> chromosome_ok(keys@),
        r is Err ==> (r->Err_0 == DecodeError::WrongLength <==> keys@.len() != CHROMOSOME_LEN),
        r matches Ok(d) ==> {
            &&& d.leverage == scaled(1, 60, keys@[0] as int)
            &&& 1 <= d.leverage <= 60
            &&& d.long_rule == periods_of(keys@.subrange(1, 18))
            &&& d.short_rule == periods_of(keys@.subrange(18, 35))
            &&& periods_ok(d.long_rule)
            &&& periods_ok(d.short_rule)
        },
{
    match check_chromosome(keys) {
        Err(e) => Err(e),
        Ok(()) => {
            let leverage = decode_leverage(keys[0]);
            let long_rule = decode_rule_periods(keys, LONG_RULE_OFFSET);
            let short_rule = decode_rule_periods(keys, SHORT_RULE_OFFSET);
            Ok(DecodedPeriods { leverage, long_rule, short_rule })
        },
    }
}

/// Every valid chromosome decodes, and its leverage lies in `1..=60`.
pub proof fn lemma_valid_chromosome_decodes(keys: Seq<u32>)
    requires
        chromosome_ok(keys),
    ensures
        1 <= scaled(1, 60, keys[0] as int) <= 60,
        periods_ok(periods_of(keys.subrange(1, 18))),
        periods_ok(periods_of(keys.subrange(18, 35))),
{
    lemma_scaled_bounds(1, 60, keys[0] as int);
    lemma_rule_periods_ok(keys.subrange(1, 18));
    lemma_rule_periods_ok(keys.subrange(18, 35));
}

/// A gene in `[0, 1]` maps into `[lo, hi]`.
pub proof fn lemma_scaled_bounds(lo: int, hi: int, key: int)
    requires
        lo <= hi,
        0 <= key <= GENE_SCALE,
    ensures
        lo <= scaled(lo, hi, key) <= hi,
{
    let s = GENE_SCALE as int;
    assert(0 <= key * (hi - lo) <= s * (hi - lo)) by (nonlinear_arith)
        requires 0 <= key <= s, lo <= hi;
    assert(0 <= key * (hi - lo) / s <= hi - lo) by (nonlinear_arith)
        requires 0 <= key * (hi - lo) <= s * (hi - lo), s > 0;
}

proof fn lemma_rule_periods_ok(g: Seq<u32>)
    requires
        g.len() == RULE_GENES,
        genes_ok(g),
    ensures
        periods_ok(periods_of(g)),
{
    assert(gene_ok(g[1]) && gene_ok(g[3]) && gene_ok(g[4]) && gene_ok(g[7]) && gene_ok(g[8]));
    assert(gene_ok(g[9]) && gene_ok(g[11]) && gene_ok(g[13]) && gene_ok(g[15]) && gene_ok(g[16]));
    lemma_scaled_bounds(2, 100, g[1] as int);
    lemma_scaled_bounds(2, 50, g[3] as int);
    lemma_scaled_bounds(0, 100, g[4] as int);
    lemma_scaled_bounds(2, 100, g[7] as int);
    lemma_scaled_bounds(2, 100, g[8] as int);
    lemma_scaled_bounds(2, 100, g[9] as int);
    lemma_scaled_bounds(2, 100, g[11] as int);
    lemma_scaled_bounds(2, 100, g[13] as int);
    lemma_scaled_bounds(1, 100, g[15] as int);
    lemma_scaled_bounds(1, 100, g[16] as int);
}

} // verus!
