//! Walk-forward backtest: replays a candle sequence one bar at a time,
//! growing the history, and records which strategies fire at each step. The
//! incremental re-evaluation reproduces exactly what a live run would have
//! seen at each point in time.

use vstd::prelude::*;
use crate::Candle;
use crate::strategies::StrategyKind;
use crate::strategies::StrategyRunner;
use crate::strategies::triggered_names;
use crate::strategies::lemma_triggered_names_len;
use crate::strategies::vwap_bounce::VwapBounce;
use crate::strategies::breakout::Breakout;

verus! {

/// One trigger record from a backtest replay: which strategy fired, stamped
/// with the timestamp of the candle that completed the history it fired on.
pub struct TriggerEvent {
    pub strategy_name: String,
    pub timestamp: i64,
}

/// Ghost image of a trigger event: its name and its timestamp.
pub open spec fn event_view(e: TriggerEvent) -> (Seq<char>, int) {
    (e.strategy_name@, e.timestamp as int)
}

/// The strategies a backtest replays: VWAP-Bounce then Breakout, in that
/// registration order.
pub open spec fn backtest_strategies() -> Seq<StrategyKind> {
    seq![StrategyKind::VwapBounce(VwapBounce), StrategyKind::Breakout(Breakout)]
}

/// Events recorded at the replay step whose history is `cs`: one per
/// triggered strategy, in registration order, stamped with the newest
/// candle's timestamp.
pub open spec fn step_events(strats: Seq<StrategyKind>, cs: Seq<Candle>) -> Seq<(Seq<char>, int)>
    recommends
        cs.len() > 0,
{
    triggered_names(strats, cs).map_values(|n: Seq<char>| (n, cs.last().timestamp as int))
}

/// Full event log of a walk-forward replay of `cs`: the step events of every
/// prefix, shortest first.
pub open spec fn backtest_events(strats: Seq<StrategyKind>, cs: Seq<Candle>) -> Seq<
    (Seq<char>, int),
>
    decreases cs.len(),
{
    if cs.len() == 0 {
        Seq::empty()
    } else {
        backtest_events(strats, cs.drop_last()) + step_events(strats, cs)
    }
}

/// Replays `candles` one bar at a time through a fresh runner holding
/// VWAP-Bounce and Breakout, and returns one event per strategy that fires at
/// each step, in chronological then registration order.
pub fn run_backtest(candles: &[Candle]) -> (r: Vec<TriggerEvent>)
    ensures
        r@.map_values(|e: TriggerEvent| event_view(e)) == backtest_events(
            backtest_strategies(),
            candles@,
        ),
{
    let mut runner = StrategyRunner::new();
    runner.add_strategy(StrategyKind::VwapBounce(VwapBounce));
    runner.add_strategy(StrategyKind::Breakout(Breakout));
    proof {
        assert(runner.registered() =~= backtest_strategies());
    }
    let mut history: Vec<Candle> = Vec::new();
    let mut events: Vec<TriggerEvent> = Vec::new();
    let mut i: usize = 0;
    while i < candles.len()
        invariant
            i <= candles@.len(),
            runner.registered() == backtest_strategies(),
            history@ == candles@.take(i as int),
            events@.map_values(|e: TriggerEvent| event_view(e)) == backtest_events(
                backtest_strategies(),
                candles@.take(i as int),
            ),
        decreases candles@.len() - i,
    {
        let c = candles[i];
        history.push(c);
        proof {
            assert(history@ =~= candles@.take(i + 1));
            assert(candles@.take(i + 1).drop_last() =~= candles@.take(i as int));
            assert(candles@.take(i + 1).last() == candles@[i as int]);
        }
        let names = runner.run_on_slice(history.as_slice());
        let ghost hist1 = candles@.take(i + 1);
        let ghost base = events@.map_values(|e: TriggerEvent| event_view(e));
        let mut j: usize = 0;
        while j < names.len()
            invariant
                j <= names@.len(),
                names@.map_values(|n: String| n@) == triggered_names(
                    backtest_strategies(),
                    hist1,
                ),
                hist1.len() > 0,
                c == hist1.last(),
                events@.map_values(|e: TriggerEvent| event_view(e)) == base + names@.take(
                    j as int,
                ).map_values(|n: String| (n@, c.timestamp as int)),
            decreases names@.len() - j,
        {
            let nm = names[j].clone();
            let ghost before = events@;
            events.push(TriggerEvent { strategy_name: nm, timestamp: c.timestamp });
            proof {
                assert(events@ == before.push(events@.last()));
                assert(events@.last().strategy_name@ == names@[j as int]@);
                before.lemma_push_map_commute(|e: TriggerEvent| event_view(e), events@.last());
                names@.lemma_map_take_succ(|n: String| (n@, c.timestamp as int), j as int);
                assert(events@.map_values(|e: TriggerEvent| event_view(e)) =~= base + names@.take(
                    j + 1,
                ).map_values(|n: String| (n@, c.timestamp as int)));
            }
            j = j + 1;
        }
        proof {
            assert(names@.take(names@.len() as int) =~= names@);
            assert(names@.map_values(|n: String| (n@, c.timestamp as int)) =~= step_events(
                backtest_strategies(),
                hist1,
            ));
            assert(events@.map_values(|e: TriggerEvent| event_view(e)) =~= backtest_events(
                backtest_strategies(),
                candles@.take(i + 1),
            ));
        }
        i = i + 1;
    }
    proof {
        assert(candles@.take(candles@.len() as int) =~= candles@);
    }
    events
}

/// Backtest monotonicity: over a candle sequence whose timestamps are
/// non-decreasing (the shape a session's feed guarantees), a replay yields at
/// most `candles × strategies` events, every event carries the timestamp of
/// some input candle, and the event timestamps are non-decreasing.
pub proof fn lemma_backtest_monotonic(strats: Seq<StrategyKind>, cs: Seq<Candle>)
    requires
        forall|i: int, j: int|
            0 <= i <= j < cs.len() ==> cs[i].timestamp <= cs[j].timestamp,
    ensures
        backtest_events(strats, cs).len() <= cs.len() * strats.len(),
        forall|k: int|
            0 <= k < backtest_events(strats, cs).len() ==> exists|i: int|
                0 <= i < cs.len() && (#[trigger] backtest_events(strats, cs)[k]).1
                    == cs[i].timestamp as int,
        forall|k: int, l: int|
            0 <= k <= l < backtest_events(strats, cs).len() ==> backtest_events(strats, cs)[k].1
                <= backtest_events(strats, cs)[l].1,
    decreases cs.len(),
{
    if cs.len() > 0 {
        let prefix = cs.drop_last();
        assert(forall|i: int, j: int|
            0 <= i <= j < prefix.len() ==> prefix[i].timestamp <= prefix[j].timestamp);
        lemma_backtest_monotonic(strats, prefix);
        lemma_triggered_names_len(strats, cs);
        let pe = backtest_events(strats, prefix);
        let se = step_events(strats, cs);
        let all = backtest_events(strats, cs);
        assert(all == pe + se);
        assert(se.len() <= strats.len());
        assert((cs.len() - 1) * strats.len() + strats.len() == cs.len() * strats.len())
            by (nonlinear_arith);
        assert(forall|k: int| 0 <= k < se.len() ==> (#[trigger] se[k]).1 == cs.last().timestamp as int);
        // Every prefix event's timestamp is bounded by the newest one.
        assert forall|k: int| 0 <= k < pe.len() implies (#[trigger] pe[k]).1 <= cs.last().timestamp as int by {
            let i = choose|i: int|
                0 <= i < prefix.len() && pe[k].1 == prefix[i].timestamp as int;
            assert(cs[i].timestamp <= cs[cs.len() - 1].timestamp);
        }
        assert forall|k: int| 0 <= k < all.len() implies exists|i: int|
            0 <= i < cs.len() && (#[trigger] all[k]).1 == cs[i].timestamp as int by {
            if k < pe.len() {
                assert(all[k] == pe[k]);
                let i = choose|i: int|
                    0 <= i < prefix.len() && pe[k].1 == prefix[i].timestamp as int;
                assert(0 <= i < cs.len() && all[k].1 == cs[i].timestamp as int);
            } else {
                assert(all[k] == se[k - pe.len()]);
                assert(all[k].1 == cs[cs.len() - 1].timestamp as int);
            }
        }
        assert forall|k: int, l: int|
            0 <= k <= l < all.len() implies all[k].1 <= all[l].1 by {
            if l < pe.len() {
                assert(all[k] == pe[k] && all[l] == pe[l]);
            } else if k < pe.len() {
                assert(all[k] == pe[k] && all[l] == se[l - pe.len()]);
            } else {
                assert(all[k] == se[k - pe.len()] && all[l] == se[l - pe.len()]);
            }
        }
    }
}

} // verus!
