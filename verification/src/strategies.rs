//! Strategy capability, the concrete signal strategies, and the runner that
//! evaluates every registered strategy against a candle history.

use vstd::prelude::*;
use crate::Candle;
use crate::ExchangeApi;
use crate::strategies::vwap_bounce::VwapBounce;
use crate::strategies::breakout::Breakout;

pub mod vwap_bounce;
pub mod breakout;

verus! {

/// A trading signal: a stable reporting name and a boolean trigger condition
/// over a candle history. `check_signal` is a pure function of the supplied
/// history; it never mutates it and may be re-invoked on growing prefixes.
pub trait Strategy {
    /// The strategy's stable reporting name.
    spec fn spec_name(&self) -> Seq<char>;

    /// Whether the strategy's trigger condition holds of a candle history.
    spec fn spec_fires(&self, history: Seq<Candle>) -> bool;

    fn name(&self) -> (r: String)
        ensures
            r@ == self.spec_name(),
    ;

    fn check_signal(&self, candles: &[Candle]) -> (b: bool)
        ensures
            b == self.spec_fires(candles@),
    ;
}

/// The closed set of strategies a runner can hold. Adding a strategy means
/// implementing [`Strategy`] and adding a variant here; the runner itself
/// never changes.
#[derive(Clone, Copy)]
pub enum StrategyKind {
    VwapBounce(VwapBounce),
    Breakout(Breakout),
}

impl Strategy for StrategyKind {
    open spec fn spec_name(&self) -> Seq<char> {
        match self {
            StrategyKind::VwapBounce(s) => s.spec_name(),
            StrategyKind::Breakout(s) => s.spec_name(),
        }
    }

    open spec fn spec_fires(&self, history: Seq<Candle>) -> bool {
        match self {
            StrategyKind::VwapBounce(s) => s.spec_fires(history),
            StrategyKind::Breakout(s) => s.spec_fires(history),
        }
    }

    fn name(&self) -> (r: String) {
        match self {
            StrategyKind::VwapBounce(s) => s.name(),
            StrategyKind::Breakout(s) => s.name(),
        }
    }

    fn check_signal(&self, candles: &[Candle]) -> (b: bool) {
        match self {
            StrategyKind::VwapBounce(s) => s.check_signal(candles),
            StrategyKind::Breakout(s) => s.check_signal(candles),
        }
    }
}

/// Names of the strategies that fire on `history`, in registration order.
pub open spec fn triggered_names(strats: Seq<StrategyKind>, history: Seq<Candle>) -> Seq<
    Seq<char>,
>
    decreases strats.len(),
{
    if strats.len() == 0 {
        Seq::empty()
    } else {
        let rest = triggered_names(strats.drop_last(), history);
        if strats.last().spec_fires(history) {
            rest.push(strats.last().spec_name())
        } else {
            rest
        }
    }
}

/// No more strategies fire than are registered.
pub proof fn lemma_triggered_names_len(strats: Seq<StrategyKind>, history: Seq<Candle>)
    ensures
        triggered_names(strats, history).len() <= strats.len(),
    decreases strats.len(),
{
    if strats.len() > 0 {
        lemma_triggered_names_len(strats.drop_last(), history);
    }
}

/// Registration order is preserved: evaluating the concatenation of two
/// registries reports every triggered name of the first, in order, before any
/// name of the second.
pub proof fn lemma_triggered_names_concat(
    a: Seq<StrategyKind>,
    b: Seq<StrategyKind>,
    history: Seq<Candle>,
)
    ensures
        triggered_names(a + b, history) == triggered_names(a, history) + triggered_names(
            b,
            history,
        ),
    decreases b.len(),
{
    if b.len() == 0 {
        assert(a + b =~= a);
        assert(triggered_names(a, history) + triggered_names(b, history) =~= triggered_names(
            a,
            history,
        ));
    } else {
        lemma_triggered_names_concat(a, b.drop_last(), history);
        assert((a + b).drop_last() =~= a + b.drop_last());
        assert((a + b).last() == b.last());
        if b.last().spec_fires(history) {
            assert(triggered_names(a, history) + triggered_names(b.drop_last(), history).push(
                b.last().spec_name(),
            ) =~= (triggered_names(a, history) + triggered_names(b.drop_last(), history)).push(
                b.last().spec_name(),
            ));
        }
    }
}

/// Ordered registry of strategies; evaluates all of them, in registration
/// order, against a given candle history.
pub struct StrategyRunner {
    strategies: Vec<StrategyKind>,
}

impl StrategyRunner {
    /// The strategies registered so far, in registration order.
    pub closed spec fn registered(&self) -> Seq<StrategyKind> {
        self.strategies@
    }

    pub fn new() -> (r: StrategyRunner)
        ensures
            r.registered() == Seq::<StrategyKind>::empty(),
    {
        StrategyRunner { strategies: Vec::new() }
    }

    /// Appends a strategy; duplicates (even by name) are allowed.
    pub fn add_strategy(&mut self, strat: StrategyKind)
        ensures
            final(self).registered() == old(self).registered().push(strat),
    {
        self.strategies.push(strat);
    }

    /// Evaluates every registered strategy against `candles` and returns the
    /// names of those that fire, preserving registration order. Neither the
    /// history nor the registry is changed.
    pub fn run_on_slice(&self, candles: &[Candle]) -> (r: Vec<String>)
        ensures
            r@.map_values(|n: String| n@) == triggered_names(self.registered(), candles@),
    {
        let mut triggered: Vec<String> = Vec::new();
        let mut i: usize = 0;
        while i < self.strategies.len()
            invariant
                i <= self.strategies@.len(),
                triggered@.map_values(|n: String| n@) == triggered_names(
                    self.strategies@.take(i as int),
                    candles@,
                ),
            decreases self.strategies@.len() - i,
        {
            proof {
                assert(self.strategies@.take(i + 1).drop_last() =~= self.strategies@.take(
                    i as int,
                ));
                assert(self.strategies@.take(i + 1).last() == self.strategies@[i as int]);
            }
            let s = &self.strategies[i];
            if s.check_signal(candles) {
                let nm = s.name();
                let ghost before = triggered@;
                triggered.push(nm);
                proof {
                    assert(triggered@.map_values(|n: String| n@) =~= before.map_values(
                        |n: String| n@,
                    ).push(nm@));
                }
            }
            i = i + 1;
        }
        proof {
            assert(self.strategies@.take(self.strategies@.len() as int) =~= self.strategies@);
        }
        triggered
    }

    /// Fetches one candle batch from the exchange capability and delegates to
    /// [`Self::run_on_slice`]. This is the core's only contact with the
    /// exchange boundary, and it is fetch-only.
    pub fn run<A: ExchangeApi>(&self, api: &A) -> (r: Vec<String>)
        ensures
            r@.map_values(|n: String| n@) == triggered_names(self.registered(), api.candles()),
    {
        let candles = api.fetch_candles();
        self.run_on_slice(candles.as_slice())
    }
}

} // verus!
