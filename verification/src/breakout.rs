//! The breakout agent: trades in the direction of a daily candle whose body is
//! unusually large against its moving average, adds to a position on a breakout in the
//! same direction, and on a breakout against the position closes everything without
//! reversing (a one-bar cool-down). Ranges, averages, stops and targets are
//! floating-point work of the driving program; the decisions are here.
use vstd::prelude::*;
use crate::grid::{lemma_nested_position, nested_position};
use crate::time::Instant;
use crate::trading::{ActiveTrade, BarClock, Command, Direction};

verus! {

/// Whether a breakout in direction `d` goes against the agent's first open trade.
pub open spec fn is_counter_signal(d: Direction, live: Seq<ActiveTrade>) -> bool {
    live.len() > 0 && live[0].direction != d
}

/// The orders for one call: `breakout` is the direction of a breakout candle, `None`
/// when there is none (or the average still warms up); `live` are the agent's open
/// trades in the engine's order; `cooling` says whether the current bar is one on which
/// the agent already closed its trades on a counter signal. Against the first open
/// trade: close every open trade and open nothing. Otherwise (flat, or the same
/// direction: pyramiding) open one trade in the breakout's direction, unless the bar
/// is cooling down, in which case nothing.
pub open spec fn breakout_commands(counter: i64, breakout: Option<Direction>, live: Seq<ActiveTrade>, cooling: bool) -> Seq<Command> {
    match breakout {
        None => seq![],
        Some(d) => if is_counter_signal(d, live) {
            live.map_values(|t: ActiveTrade| Command::MarketClose { trade_id: t.trade_id })
        } else if cooling {
            seq![]
        } else {
            seq![Command::Open { trade_id: (counter + 1) as i64, direction: d }]
        },
    }
}

/// Whether the orders for `breakout` open a trade.
pub open spec fn breakout_opens(breakout: Option<Direction>, live: Seq<ActiveTrade>, cooling: bool) -> bool {
    match breakout {
        None => false,
        Some(d) => !is_counter_signal(d, live) && !cooling,
    }
}

/// Whether the orders for `breakout` are a counter-signal close.
pub open spec fn breakout_closes_all(breakout: Option<Direction>, live: Seq<ActiveTrade>) -> bool {
    match breakout {
        None => false,
        Some(d) => is_counter_signal(d, live),
    }
}

/// The breakout agent's own state: the length of the moving average of body ranges,
/// the last trade id it used, the close of the last bar it advanced on, and the close of
/// the last bar on which it closed its trades on a counter signal.
#[derive(Clone, Copy, Debug)]
pub struct BreakoutAgent {
    volmalen: usize,
    trade_counter: i64,
    clock: BarClock,
    cooldown_bar: Option<Instant>,
}

impl BreakoutAgent {
    /// Length of the moving average of body ranges.
    pub closed spec fn average_length(self) -> usize {
        self.volmalen
    }

    /// The last trade id handed out; 0 before the first trade.
    pub closed spec fn counter(self) -> i64 {
        self.trade_counter
    }

    /// The close of the last bar the agent advanced on.
    pub closed spec fn last_bar(self) -> Option<Instant> {
        self.clock.last()
    }

    /// The close of the last bar on which the agent closed its trades on a counter signal.
    pub closed spec fn cooldown(self) -> Option<Instant> {
        self.cooldown_bar
    }

    /// Whether the current bar is a cool-down bar: the agent closed its trades on a
    /// counter signal on it, and so opens nothing more on it.
    pub open spec fn cooling(self) -> bool {
        self.last_bar() is Some && self.cooldown() == self.last_bar()
    }

    /// The agent with average length `volmalen` and a fresh trading state.
    pub open spec fn fresh(self, volmalen: usize) -> bool {
        &&& self.average_length() == volmalen
        &&& self.counter() == 0
        &&& self.last_bar() is None
        &&& self.cooldown() is None
    }

    /// A fresh agent whose moving average of body ranges spans `volmalen` bars.
    pub fn new(volmalen: usize) -> (a: BreakoutAgent)
        ensures
            a.fresh(volmalen),
    {
        BreakoutAgent { volmalen, trade_counter: 0, clock: BarClock::new(), cooldown_bar: None }
    }

    /// Length of the moving average of body ranges.
    pub fn volmalen(&self) -> (n: usize)
        ensures
            n == self.average_length(),
    {
        self.volmalen
    }

    /// The last trade id handed out.
    pub fn trade_counter(&self) -> (c: i64)
        ensures
            c == self.counter(),
    {
        self.trade_counter
    }

    /// Starts a new episode: trade ids restart, no bar has been seen, no bar cools down.
    pub fn reset(&mut self)
        ensures
            final(self).fresh(old(self).average_length()),
    {
        self.trade_counter = 0;
        self.clock = BarClock::new();
        self.cooldown_bar = None;
    }

    /// Records the latest bar, closing at `close`; returns whether it is new, in which
    /// case the driver feeds its body range to the moving average.
    pub fn observe_bar(&mut self, close: Instant) -> (is_new: bool)
        ensures
            is_new == BarClock::advances(old(self).last_bar(), close),
            final(self).last_bar() == Some(close),
            final(self).average_length() == old(self).average_length(),
            final(self).counter() == old(self).counter(),
            final(self).cooldown() == old(self).cooldown(),
    {
        self.clock.observe(close)
    }

    /// The orders for one call on the current bar (see `breakout_commands`); an order that
    /// opens takes the next trade id, and a counter-signal close makes the current bar a
    /// cool-down bar.
    pub fn decide(&mut self, breakout: Option<Direction>, live: &Vec<ActiveTrade>) -> (cmds: Vec<Command>)
        requires
            old(self).counter() < i64::MAX,
        ensures
            cmds@ == breakout_commands(old(self).counter(), breakout, live@, old(self).cooling()),
            final(self).counter() == if breakout_opens(breakout, live@, old(self).cooling()) {
                old(self).counter() + 1
            } else {
                old(self).counter() as int
            },
            final(self).cooldown() == if breakout_closes_all(breakout, live@) {
                old(self).last_bar()
            } else {
                old(self).cooldown()
            },
            final(self).average_length() == old(self).average_length(),
            final(self).last_bar() == old(self).last_bar(),
    {
        let mut cmds: Vec<Command> = Vec::new();
        let d = match breakout {
            None => {
                return cmds;
            },
            Some(d) => d,
        };
        let cooling = match (self.clock.last_close(), self.cooldown_bar) {
            (Some(last), Some(cool)) => last == cool,
            _ => false,
        };
        if live.len() > 0 && live[0].direction != d {
            let mut i: usize = 0;
            while i < live.len()
                invariant
                    i <= live.len(),
                    cmds@ =~= live@.take(i as int).map_values(|t: ActiveTrade| Command::MarketClose { trade_id: t.trade_id }),
                decreases live.len() - i,
            {
                cmds.push(Command::MarketClose { trade_id: live[i].trade_id });
                i = i + 1;
                assert(cmds@ =~= live@.take(i as int).map_values(|t: ActiveTrade| Command::MarketClose { trade_id: t.trade_id }));
            }
            assert(live@.take(i as int) =~= live@);
            self.cooldown_bar = self.clock.last_close();
        } else if !cooling {
            self.trade_counter = self.trade_counter + 1;
            cmds.push(Command::Open { trade_id: self.trade_counter, direction: d });
            proof {
                assert(cmds@ =~= breakout_commands(old(self).counter(), breakout, live@, old(self).cooling()));
            }
        }
        cmds
    }
}

/// Flat entry and pyramiding: outside a cool-down bar, a breakout opens one trade, under
/// the next id, in its own direction whenever the agent is flat or its first open trade
/// points the same way.
pub proof fn law_breakout_enters_with_the_trend(counter: i64, d: Direction, live: Seq<ActiveTrade>)
    requires
        live.len() == 0 || live[0].direction == d,
    ensures
        breakout_commands(counter, Some(d), live, false) == seq![Command::Open { trade_id: (counter + 1) as i64, direction: d }],
{
}

/// Counter signal: a breakout against the first open trade closes every open trade, each
/// once and in the engine's order, and opens nothing.
pub proof fn law_breakout_counter_signal_closes_all(counter: i64, d: Direction, live: Seq<ActiveTrade>, cooling: bool)
    requires
        live.len() > 0,
        live[0].direction != d,
    ensures
        breakout_commands(counter, Some(d), live, cooling).len() == live.len(),
        forall|i: int|
            0 <= i < live.len() ==> #[trigger] breakout_commands(counter, Some(d), live, cooling)[i]
                == (Command::MarketClose { trade_id: live[i].trade_id }),
        !breakout_opens(Some(d), live, cooling),
{
}

/// Cool-down: once the agent has closed its trades on a counter signal, the rest of that
/// bar is ignored for entry. A call that closes on a counter signal makes the current
/// bar cooling; while it is cooling no call opens a trade, whatever the breakout; and
/// only a new bar, which the clock reports as new, ends the cool-down.
pub proof fn law_breakout_cools_down_for_the_bar(
    before: BreakoutAgent,
    after: BreakoutAgent,
    later: BreakoutAgent,
    counter: i64,
    breakout: Option<Direction>,
    live: Seq<ActiveTrade>,
    close: Instant,
)
    requires
        before.last_bar() is Some,
        after.last_bar() == before.last_bar(),
        after.cooldown() == before.last_bar(),
        later.last_bar() == Some(close),
        later.cooldown() == after.cooldown(),
        BarClock::advances(after.last_bar(), close),
    ensures
        after.cooling(),
        forall|i: int|
            0 <= i < breakout_commands(counter, breakout, live, after.cooling()).len()
                ==> !(#[trigger] breakout_commands(counter, breakout, live, after.cooling())[i] is Open),
        !later.cooling(),
{
}

/// No breakout, no orders.
pub proof fn law_breakout_quiet_without_a_breakout(counter: i64, live: Seq<ActiveTrade>, cooling: bool)
    ensures
        breakout_commands(counter, None, live, cooling).len() == 0,
{
}

/// The grid position of the digits `(a, b, c, d)` when four axes with `n1`, `n2`, `n3`
/// points on the three inner axes are walked as nested loops, the first axis outermost.
pub open spec fn lex4(a: int, b: int, c: int, d: int, n1: int, n2: int, n3: int) -> int {
    ((a * n1 + b) * n2 + c) * n3 + d
}

/// The digits at grid position `k` of four axes walked as nested loops, the first axis
/// outermost: the inverse of `lex4`.
pub open spec fn grid4_digits(k: int, n1: int, n2: int, n3: int) -> (int, int, int, int) {
    let (q1, d) = nested_position(k, n3);
    let (q2, c) = nested_position(q1, n2);
    let (a, b) = nested_position(q2, n1);
    (a, b, c, d)
}

/// Walking four axes as nested loops visits every combination of indices exactly once:
/// the position of in-range digits lies inside the grid, and decodes back to them.
pub proof fn law_grid4_walk_visits_each_point_once(a: int, b: int, c: int, d: int, n0: int, n1: int, n2: int, n3: int)
    requires
        0 <= a < n0,
        0 <= b < n1,
        0 <= c < n2,
        0 <= d < n3,
    ensures
        grid4_digits(lex4(a, b, c, d, n1, n2, n3), n1, n2, n3) == (a, b, c, d),
        0 <= lex4(a, b, c, d, n1, n2, n3) < n0 * n1 * n2 * n3,
{
    let x = a * n1 + b;
    let y = x * n2 + c;
    lemma_nested_position(a, b, n1);
    lemma_nested_position(x, c, n2);
    lemma_nested_position(y, d, n3);
    assert(x < n0 * n1) by (nonlinear_arith)
        requires x == a * n1 + b, a < n0, b < n1, 0 <= a, 0 <= b;
    assert(y < n0 * n1 * n2) by (nonlinear_arith)
        requires y == x * n2 + c, x < n0 * n1, c < n2, 0 <= x, 0 <= c;
    assert(y * n3 + d < n0 * n1 * n2 * n3) by (nonlinear_arith)
        requires y < n0 * n1 * n2, d < n3, 0 <= y, 0 <= d;
}

/// The parameter grid of the breakout agent: how many points each of its four
/// floating-point axes (average length, breakout multiplier, stop fraction, reward
/// ratio) has, as the driver generates them.
pub struct BreakoutAgentGrid {
    pub volmalen_points: usize,
    pub volmult_points: usize,
    pub sl_pct_points: usize,
    pub tp_crv_points: usize,
}

impl BreakoutAgentGrid {
    /// The grid with the given numbers of points on its four axes.
    pub fn baseline(volmalen_points: usize, volmult_points: usize, sl_pct_points: usize, tp_crv_points: usize) -> (g: BreakoutAgentGrid)
        ensures
            g.volmalen_points == volmalen_points,
            g.volmult_points == volmult_points,
            g.sl_pct_points == sl_pct_points,
            g.tp_crv_points == tp_crv_points,
    {
        BreakoutAgentGrid { volmalen_points, volmult_points, sl_pct_points, tp_crv_points }
    }

    /// Every point of the grid with its id, walked as nested loops with the average
    /// length outermost and the reward ratio innermost: id `k` gets the axis indices
    /// `grid4_digits(k, ..)`.
    pub fn build(self) -> (points: Vec<(usize, (usize, usize, usize, usize))>)
        requires
            self.volmalen_points * self.volmult_points * self.sl_pct_points * self.tp_crv_points <= usize::MAX,
        ensures
            points@.len() == self.volmalen_points * self.volmult_points * self.sl_pct_points * self.tp_crv_points,
            forall|k: int|
                0 <= k < points@.len() ==> {
                    let (a, b, c, d) = grid4_digits(k, self.volmult_points as int, self.sl_pct_points as int, self.tp_crv_points as int);
                    &&& (#[trigger] points@[k]).0 == k
                    &&& points@[k].1 == (a as usize, b as usize, c as usize, d as usize)
                    &&& 0 <= a < self.volmalen_points
                    &&& 0 <= b < self.volmult_points
                    &&& 0 <= c < self.sl_pct_points
                    &&& 0 <= d < self.tp_crv_points
                },
    {
        let n0 = self.volmalen_points;
        let n1 = self.volmult_points;
        let n2 = self.sl_pct_points;
        let n3 = self.tp_crv_points;
        let ghost total = n0 * n1 * n2 * n3;
        let mut points: Vec<(usize, (usize, usize, usize, usize))> = Vec::new();
        let mut a: usize = 0;
        assert(lex4(0, 0, 0, 0, n1 as int, n2 as int, n3 as int) == 0) by (nonlinear_arith);
        while a < n0
            invariant
                total == n0 * n1 * n2 * n3,
                total <= usize::MAX,
                a <= n0,
                points@.len() == lex4(a as int, 0, 0, 0, n1 as int, n2 as int, n3 as int),
                forall|k: int|
                    0 <= k < points@.len() ==> {
                        let (p, q, r, s) = grid4_digits(k, n1 as int, n2 as int, n3 as int);
                        &&& (#[trigger] points@[k]).0 == k
                        &&& points@[k].1 == (p as usize, q as usize, r as usize, s as usize)
                        &&& 0 <= p < n0 && 0 <= q < n1 && 0 <= r < n2 && 0 <= s < n3
                    },
            decreases n0 - a,
        {
            let mut b: usize = 0;
            while b < n1
                invariant
                    total == n0 * n1 * n2 * n3,
                    total <= usize::MAX,
                    a < n0,
                    b <= n1,
                    points@.len() == lex4(a as int, b as int, 0, 0, n1 as int, n2 as int, n3 as int),
                    forall|k: int|
                        0 <= k < points@.len() ==> {
                            let (p, q, r, s) = grid4_digits(k, n1 as int, n2 as int, n3 as int);
                            &&& (#[trigger] points@[k]).0 == k
                            &&& points@[k].1 == (p as usize, q as usize, r as usize, s as usize)
                            &&& 0 <= p < n0 && 0 <= q < n1 && 0 <= r < n2 && 0 <= s < n3
                        },
                decreases n1 - b,
            {
                let mut c: usize = 0;
                while c < n2
                    invariant
                        total == n0 * n1 * n2 * n3,
                        total <= usize::MAX,
                        a < n0,
                        b < n1,
                        c <= n2,
                        points@.len() == lex4(a as int, b as int, c as int, 0, n1 as int, n2 as int, n3 as int),
                        forall|k: int|
                            0 <= k < points@.len() ==> {
                                let (p, q, r, s) = grid4_digits(k, n1 as int, n2 as int, n3 as int);
                                &&& (#[trigger] points@[k]).0 == k
                                &&& points@[k].1 == (p as usize, q as usize, r as usize, s as usize)
                                &&& 0 <= p < n0 && 0 <= q < n1 && 0 <= r < n2 && 0 <= s < n3
                            },
                    decreases n2 - c,
                {
                    let mut d: usize = 0;
                    while d < n3
                        invariant
                            total == n0 * n1 * n2 * n3,
                            total <= usize::MAX,
                            a < n0,
                            b < n1,
                            c < n2,
                            d <= n3,
                            points@.len() == lex4(a as int, b as int, c as int, d as int, n1 as int, n2 as int, n3 as int),
                            forall|k: int|
                                0 <= k < points@.len() ==> {
                                    let (p, q, r, s) = grid4_digits(k, n1 as int, n2 as int, n3 as int);
                                    &&& (#[trigger] points@[k]).0 == k
                                    &&& points@[k].1 == (p as usize, q as usize, r as usize, s as usize)
                                    &&& 0 <= p < n0 && 0 <= q < n1 && 0 <= r < n2 && 0 <= s < n3
                                },
                        decreases n3 - d,
                    {
                        proof {
                            law_grid4_walk_visits_each_point_once(a as int, b as int, c as int, d as int, n0 as int, n1 as int, n2 as int, n3 as int);
                        }
                        let k = points.len();
                        points.push((k, (a, b, c, d)));
                        d = d + 1;
                    }
                    proof {
                        assert(lex4(a as int, b as int, c as int, n3 as int, n1 as int, n2 as int, n3 as int)
                            == lex4(a as int, b as int, c as int + 1, 0, n1 as int, n2 as int, n3 as int)) by (nonlinear_arith);
                    }
                    c = c + 1;
                }
                proof {
                    assert(lex4(a as int, b as int, n2 as int, 0, n1 as int, n2 as int, n3 as int)
                        == lex4(a as int, b as int + 1, 0, 0, n1 as int, n2 as int, n3 as int)) by (nonlinear_arith);
                }
                b = b + 1;
            }
            proof {
                assert(lex4(a as int, n1 as int, 0, 0, n1 as int, n2 as int, n3 as int)
                    == lex4(a as int + 1, 0, 0, 0, n1 as int, n2 as int, n3 as int)) by (nonlinear_arith);
            }
            a = a + 1;
        }
        proof {
            assert(lex4(n0 as int, 0, 0, 0, n1 as int, n2 as int, n3 as int) == total) by (nonlinear_arith)
                requires total == n0 * n1 * n2 * n3;
        }
        points
    }
}

/// Only a counter signal starts a cool-down: the bar becomes a cool-down bar exactly
/// when a breakout goes against the first open trade; no breakout, a breakout from
/// flat, or one in the direction of the first open trade (pyramiding) leaves the
/// cool-down as it was.
pub proof fn law_breakout_cooldown_starts_only_on_a_counter_signal(d: Direction, live: Seq<ActiveTrade>)
    ensures
        !breakout_closes_all(None, live),
        (live.len() == 0 || live[0].direction == d) ==> !breakout_closes_all(Some(d), live),
        (live.len() > 0 && live[0].direction != d) ==> breakout_closes_all(Some(d), live),
{
}

/// When a call opens: exactly on a breakout that is not against the first open trade,
/// outside a cool-down bar. Pyramiding on the bar of an entry is not held back.
pub proof fn law_breakout_opens_exactly(d: Direction, live: Seq<ActiveTrade>, cooling: bool)
    ensures
        !breakout_opens(None, live, cooling),
        breakout_opens(Some(d), live, cooling) <==> ((live.len() == 0 || live[0].direction == d) && !cooling),
{
}

} // verus!
