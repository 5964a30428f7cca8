//! The demo agent: a bidirectional SMA crossover that stops and reverses. Once both
//! averages are warm it holds the side the fast average points to; level averages are
//! no signal and change nothing.
use vstd::prelude::*;
use crate::time::Instant;
use crate::trading::{ActiveTrade, BarClock, Command, Direction};

verus! {

/// Where the fast SMA stands against the slow one on the latest bar.
#[derive(Clone, Copy, Debug, PartialEq, Eq, Structural)]
pub enum SmaCross {
    /// fast > slow: bullish.
    FastAbove,
    /// fast < slow: bearish.
    FastBelow,
    /// Neither: the averages are level, no clear signal.
    Level,
}

/// The side the agent wants to hold for a crossover reading.
pub open spec fn desired_direction(cross: SmaCross) -> Option<Direction> {
    match cross {
        SmaCross::FastAbove => Some(Direction::Long),
        SmaCross::FastBelow => Some(Direction::Short),
        SmaCross::Level => None,
    }
}

/// The side of the trade the engine reports open, if any.
pub open spec fn held_direction(active: Option<ActiveTrade>) -> Option<Direction> {
    match active {
        Some(t) => Some(t.direction),
        None => None,
    }
}

/// The orders of one decision. Exits are purely signal-driven: while the averages warm
/// up (`cross` is `None`) or stand level there is no signal and no order; with a
/// signal, nothing when the held side already matches it, otherwise close the held
/// trade, if any, and then open the signalled side under trade id `counter + 1`.
pub open spec fn crossover_commands(counter: i64, cross: Option<SmaCross>, active: Option<ActiveTrade>) -> Seq<Command> {
    match cross {
        None => seq![],
        Some(c) => match desired_direction(c) {
            None => seq![],
            Some(d) => if held_direction(active) == Some(d) {
                seq![]
            } else {
                let closes = match active {
                    Some(t) => seq![Command::MarketClose { trade_id: t.trade_id }],
                    None => seq![],
                };
                closes + seq![Command::Open { trade_id: (counter + 1) as i64, direction: d }]
            },
        },
    }
}

/// No order that opens a trade comes before an order that closes one.
pub open spec fn closes_before_opens(cmds: Seq<Command>) -> bool {
    forall|i: int, j: int|
        #![trigger cmds[i], cmds[j]]
        0 <= i < j < cmds.len() ==> !(cmds[i] is Open && cmds[j] is MarketClose)
}

/// How many of `cmds` open a trade.
pub open spec fn open_count(cmds: Seq<Command>) -> nat
    decreases cmds.len(),
{
    if cmds.len() == 0 {
        0
    } else {
        open_count(cmds.drop_last()) + if cmds.last() is Open { 1nat } else { 0nat }
    }
}

/// The side held after the engine carries out `cmds` in order, starting from the
/// trade `active`: closing the held trade leaves the agent flat, opening a trade
/// makes the agent hold its side.
pub open spec fn held_after(active: Option<ActiveTrade>, cmds: Seq<Command>) -> Option<ActiveTrade>
    decreases cmds.len(),
{
    if cmds.len() == 0 {
        active
    } else {
        let before = held_after(active, cmds.drop_last());
        match cmds.last() {
            Command::Open { trade_id, direction } => Some(ActiveTrade { trade_id, direction }),
            Command::MarketClose { trade_id } => match before {
                Some(t) => if t.trade_id == trade_id { None } else { before },
                None => None,
            },
        }
    }
}

/// The SMA crossover agent's own state: its two periods, the last trade id it used,
/// and the close of the last bar it advanced its averages on. The averages themselves
/// are floating-point indicators that the driving program keeps beside it.
#[derive(Clone, Copy, Debug)]
pub struct DemoAgent {
    fast_period: u16,
    slow_period: u16,
    trade_counter: i64,
    clock: BarClock,
}

impl DemoAgent {
    /// Lookback of the fast SMA.
    pub closed spec fn fast(self) -> u16 {
        self.fast_period
    }

    /// Lookback of the slow SMA.
    pub closed spec fn slow(self) -> u16 {
        self.slow_period
    }

    /// The last trade id handed out; 0 before the first trade.
    pub closed spec fn counter(self) -> i64 {
        self.trade_counter
    }

    /// The close of the last bar the averages advanced on.
    pub closed spec fn last_bar(self) -> Option<Instant> {
        self.clock.last()
    }

    /// The agent with the given periods and a fresh trading state.
    pub open spec fn fresh(self, fast: u16, slow: u16) -> bool {
        &&& self.fast() == fast
        &&& self.slow() == slow
        &&& self.counter() == 0
        &&& self.last_bar() is None
    }

    /// The default agent: fast period 20, slow period 50.
    pub fn new() -> (a: DemoAgent)
        ensures
            a.fresh(20, 50),
    {
        DemoAgent { fast_period: 20, slow_period: 50, trade_counter: 0, clock: BarClock::new() }
    }

    /// The same agent with fast period `fast_period` (the driver rebuilds the fast SMA).
    pub fn with_fast_period(self, fast_period: u16) -> (a: DemoAgent)
        ensures
            a.fast() == fast_period,
            a.slow() == self.slow(),
            a.counter() == self.counter(),
            a.last_bar() == self.last_bar(),
    {
        DemoAgent { fast_period, ..self }
    }

    /// The same agent with slow period `slow_period` (the driver rebuilds the slow SMA).
    pub fn with_slow_period(self, slow_period: u16) -> (a: DemoAgent)
        ensures
            a.fast() == self.fast(),
            a.slow() == slow_period,
            a.counter() == self.counter(),
            a.last_bar() == self.last_bar(),
    {
        DemoAgent { slow_period, ..self }
    }

    /// Lookback of the fast SMA.
    pub fn fast_period(&self) -> (p: u16)
        ensures
            p == self.fast(),
    {
        self.fast_period
    }

    /// Lookback of the slow SMA.
    pub fn slow_period(&self) -> (p: u16)
        ensures
            p == self.slow(),
    {
        self.slow_period
    }

    /// The last trade id handed out.
    pub fn trade_counter(&self) -> (c: i64)
        ensures
            c == self.counter(),
    {
        self.trade_counter
    }

    /// Starts a new episode: trade ids restart and no bar has been seen; the periods stay.
    pub fn reset(&mut self)
        ensures
            final(self).fresh(old(self).fast(), old(self).slow()),
    {
        self.trade_counter = 0;
        self.clock = BarClock::new();
    }

    /// Records the latest bar, closing at `close`; returns whether it is new, in which
    /// case the driver feeds its close price to both averages.
    pub fn observe_bar(&mut self, close: Instant) -> (is_new: bool)
        ensures
            is_new == BarClock::advances(old(self).last_bar(), close),
            final(self).last_bar() == Some(close),
            final(self).fast() == old(self).fast(),
            final(self).slow() == old(self).slow(),
            final(self).counter() == old(self).counter(),
    {
        self.clock.observe(close)
    }

    /// One decision: `cross` is where the averages stand (`None` while either warms
    /// up), `active` the agent's trade that the engine reports open. Returns the orders,
    /// closes before opens, and moves the trade counter past every id it opened.
    pub fn decide(&mut self, cross: Option<SmaCross>, active: Option<ActiveTrade>) -> (cmds: Vec<Command>)
        requires
            old(self).counter() < i64::MAX,
        ensures
            cmds@ == crossover_commands(old(self).counter(), cross, active),
            final(self).counter() == old(self).counter() + open_count(cmds@),
            final(self).fast() == old(self).fast(),
            final(self).slow() == old(self).slow(),
            final(self).last_bar() == old(self).last_bar(),
    {
        let mut cmds: Vec<Command> = Vec::new();
        let c = match cross {
            None => {
                return cmds;
            },
            Some(c) => c,
        };
        let d = match c {
            SmaCross::FastAbove => Direction::Long,
            SmaCross::FastBelow => Direction::Short,
            SmaCross::Level => {
                return cmds;
            },
        };
        let same = match active {
            Some(t) => t.direction == d,
            None => false,
        };
        if same {
            return cmds;
        }
        if let Some(t) = active {
            cmds.push(Command::MarketClose { trade_id: t.trade_id });
        }
        self.trade_counter = self.trade_counter + 1;
        cmds.push(Command::Open { trade_id: self.trade_counter, direction: d });
        proof {
            let closes = match active {
                Some(t) => seq![Command::MarketClose { trade_id: t.trade_id }],
                None => Seq::<Command>::empty(),
            };
            assert(cmds@ =~= closes + seq![Command::Open { trade_id: (old(self).counter() + 1) as i64, direction: d }]);
            reveal_with_fuel(open_count, 3);
        }
        cmds
    }
}

/// Stop and reverse: when the averages signal a side, carrying out one decision's
/// orders leaves the agent holding exactly that side; without a signal (warming up, or
/// level averages) nothing changes and an open trade stays open.
pub proof fn law_crossover_holds_the_signalled_side(counter: i64, cross: Option<SmaCross>, active: Option<ActiveTrade>)
    requires
        counter < i64::MAX,
    ensures
        cross matches Some(c) ==> (desired_direction(c) is Some ==> held_direction(
            held_after(active, crossover_commands(counter, cross, active)),
        ) == desired_direction(c)),
        (cross is None || cross == Some(SmaCross::Level)) ==> held_after(active, crossover_commands(counter, cross, active))
            == active && crossover_commands(counter, cross, active).len() == 0,
{
    reveal_with_fuel(held_after, 3);
}

/// No churn: when the held side already matches the crossover, a decision hands the
/// engine no orders; it closes a trade only when the side changes, and closes before it opens.
pub proof fn law_crossover_trades_only_on_a_change(counter: i64, c: SmaCross, active: Option<ActiveTrade>)
    ensures
        (held_direction(active) == desired_direction(c) || c == SmaCross::Level)
            ==> crossover_commands(counter, Some(c), active).len() == 0,
        closes_before_opens(crossover_commands(counter, Some(c), active)),
{
}

/// Fresh trade ids: every trade a decision opens takes the id right after the last one
/// used, so ids never repeat within an episode; a decision opens at most one trade.
pub proof fn law_crossover_opens_under_a_fresh_id(counter: i64, cross: Option<SmaCross>, active: Option<ActiveTrade>)
    requires
        counter < i64::MAX,
    ensures
        open_count(crossover_commands(counter, cross, active)) <= 1,
        forall|i: int|
            0 <= i < crossover_commands(counter, cross, active).len()
                && (#[trigger] crossover_commands(counter, cross, active)[i]) is Open
                ==> crossover_commands(counter, cross, active)[i]->Open_trade_id == counter + 1,
{
    reveal_with_fuel(open_count, 3);
    let cmds = crossover_commands(counter, cross, active);
    if cmds.len() == 2 {
        assert(cmds.drop_last().drop_last() =~= Seq::<Command>::empty());
    } else if cmds.len() == 1 {
        assert(cmds.drop_last() =~= Seq::<Command>::empty());
    }
}

/// The ids of the trades that `cmds` open, in order.
pub open spec fn opened_ids(cmds: Seq<Command>) -> Seq<i64>
    decreases cmds.len(),
{
    if cmds.len() == 0 {
        seq![]
    } else {
        let rest = opened_ids(cmds.drop_last());
        match cmds.last() {
            Command::Open { trade_id, .. } => rest.push(trade_id),
            Command::MarketClose { .. } => rest,
        }
    }
}

/// The orders of a run of decisions, one per event `(cross, active)`, starting from last
/// trade id `counter`, together with the last trade id after the run.
pub open spec fn crossover_run(counter: i64, events: Seq<(Option<SmaCross>, Option<ActiveTrade>)>) -> (Seq<Command>, int)
    decreases events.len(),
{
    if events.len() == 0 {
        (seq![], counter as int)
    } else {
        let before = crossover_run(counter, events.drop_last());
        let e = events.last();
        let step = crossover_commands(before.1 as i64, e.0, e.1);
        (before.0 + step, before.1 + open_count(step))
    }
}

proof fn lemma_opened_ids_concat(a: Seq<Command>, b: Seq<Command>)
    ensures
        opened_ids(a + b) == opened_ids(a) + opened_ids(b),
    decreases b.len(),
{
    if b.len() == 0 {
        assert(a + b =~= a);
        assert(opened_ids(a) + opened_ids(b) =~= opened_ids(a));
    } else {
        lemma_opened_ids_concat(a, b.drop_last());
        assert((a + b).drop_last() =~= a + b.drop_last());
        assert((a + b).last() == b.last());
        match b.last() {
            Command::Open { trade_id, .. } => {
                assert(opened_ids(a) + opened_ids(b) =~= (opened_ids(a) + opened_ids(b.drop_last())).push(trade_id));
            },
            Command::MarketClose { .. } => {},
        }
    }
}

proof fn lemma_step_opened_ids(counter: i64, cross: Option<SmaCross>, active: Option<ActiveTrade>)
    requires
        counter < i64::MAX,
    ensures
        opened_ids(crossover_commands(counter, cross, active))
            == Seq::new(open_count(crossover_commands(counter, cross, active)), |i: int| (counter + 1 + i) as i64),
        open_count(crossover_commands(counter, cross, active)) <= 1,
{
    reveal_with_fuel(opened_ids, 3);
    reveal_with_fuel(open_count, 3);
    let cmds = crossover_commands(counter, cross, active);
    if cmds.len() == 2 {
        assert(cmds.drop_last().drop_last() =~= Seq::<Command>::empty());
    } else if cmds.len() == 1 {
        assert(cmds.drop_last() =~= Seq::<Command>::empty());
    }
    assert(opened_ids(cmds) =~= Seq::new(open_count(cmds), |i: int| (counter + 1 + i) as i64));
}

/// Trade ids across an episode: over any run of decisions from a fresh counter `counter`
/// (0 after `new` or `reset`), the trades opened carry the ids `counter + 1`,
/// `counter + 2`, ... in the order they are opened, each once, and the counter ends at
/// the last of them.
pub proof fn law_crossover_ids_count_up(counter: i64, events: Seq<(Option<SmaCross>, Option<ActiveTrade>)>)
    requires
        0 <= counter,
        counter + events.len() < i64::MAX,
    ensures
        counter <= crossover_run(counter, events).1 <= counter + events.len(),
        opened_ids(crossover_run(counter, events).0)
            == Seq::new((crossover_run(counter, events).1 - counter) as nat, |i: int| (counter + 1 + i) as i64),
    decreases events.len(),
{
    if events.len() == 0 {
        assert(opened_ids(Seq::<Command>::empty()) =~= Seq::new(0, |i: int| (counter + 1 + i) as i64));
    } else {
        let rest = events.drop_last();
        law_crossover_ids_count_up(counter, rest);
        let before = crossover_run(counter, rest);
        let e = events.last();
        let k = before.1 as i64;
        lemma_step_opened_ids(k, e.0, e.1);
        let step = crossover_commands(k, e.0, e.1);
        lemma_opened_ids_concat(before.0, step);
        assert(opened_ids(before.0 + step) =~= Seq::new(
            (crossover_run(counter, events).1 - counter) as nat,
            |i: int| (counter + 1 + i) as i64,
        ));
    }
}

/// The pairs `(fast, slow)` with `fast` from `fast_axis` and `slow` from `slow_axis`,
/// walked as nested loops (fast outer, slow inner), keeping those with `fast < slow`.
pub open spec fn crossover_pairs(fast_axis: Seq<u16>, slow_axis: Seq<u16>) -> Seq<(u16, u16)>
    decreases fast_axis.len(),
{
    if fast_axis.len() == 0 {
        seq![]
    } else {
        crossover_pairs(fast_axis.drop_last(), slow_axis) + pairs_above(fast_axis.last(), slow_axis)
    }
}

/// The pairs `(fast, slow)` for the slow periods of `slow_axis` above `fast`, in axis order.
pub open spec fn pairs_above(fast: u16, slow_axis: Seq<u16>) -> Seq<(u16, u16)>
    decreases slow_axis.len(),
{
    if slow_axis.len() == 0 {
        seq![]
    } else if fast < slow_axis.last() {
        pairs_above(fast, slow_axis.drop_last()).push((fast, slow_axis.last()))
    } else {
        pairs_above(fast, slow_axis.drop_last())
    }
}

/// The parameter grid of the crossover agent: the fast and the slow periods to sweep.
pub struct DemoAgentGrid {
    pub fast_period: Vec<u16>,
    pub slow_period: Vec<u16>,
}

impl DemoAgentGrid {
    /// Fast periods 10 to 30 and slow periods 40 to 60, both ends included, in steps of one.
    pub fn baseline() -> (g: DemoAgentGrid)
        ensures
            g.fast_period@ == Seq::new(21, |i: int| (10 + i) as u16),
            g.slow_period@ == Seq::new(21, |i: int| (40 + i) as u16),
    {
        let mut fast_period: Vec<u16> = Vec::new();
        let mut slow_period: Vec<u16> = Vec::new();
        let mut p: u16 = 10;
        while p <= 30
            invariant
                10 <= p <= 31,
                fast_period@ == Seq::new((p - 10) as nat, |i: int| (10 + i) as u16),
            decreases 31 - p,
        {
            fast_period.push(p);
            p = p + 1;
            assert(fast_period@ =~= Seq::new((p - 10) as nat, |i: int| (10 + i) as u16));
        }
        p = 40;
        while p <= 60
            invariant
                40 <= p <= 61,
                slow_period@ == Seq::new((p - 40) as nat, |i: int| (40 + i) as u16),
            decreases 61 - p,
        {
            slow_period.push(p);
            p = p + 1;
            assert(slow_period@ =~= Seq::new((p - 40) as nat, |i: int| (40 + i) as u16));
        }
        DemoAgentGrid { fast_period, slow_period }
    }

    /// Every agent of the grid with its id: the `k`-th pair of `crossover_pairs` becomes
    /// a fresh default agent with those periods, under id `k`.
    pub fn build(self) -> (agents: Vec<(usize, DemoAgent)>)
        ensures
            agents@.len() == crossover_pairs(self.fast_period@, self.slow_period@).len(),
            forall|k: int|
                0 <= k < agents@.len() ==> {
                    let pair = crossover_pairs(self.fast_period@, self.slow_period@)[k];
                    &&& (#[trigger] agents@[k]).0 == k
                    &&& agents@[k].1.fresh(pair.0, pair.1)
                },
    {
        let fast_axis = &self.fast_period;
        let slow_axis = &self.slow_period;
        let mut agents: Vec<(usize, DemoAgent)> = Vec::new();
        let ghost mut pairs: Seq<(u16, u16)> = seq![];
        let mut i: usize = 0;
        while i < fast_axis.len()
            invariant
                i <= fast_axis.len(),
                pairs == crossover_pairs(fast_axis@.take(i as int), slow_axis@),
                agents@.len() == pairs.len(),
                forall|k: int|
                    0 <= k < agents@.len() ==> {
                        &&& (#[trigger] agents@[k]).0 == k
                        &&& agents@[k].1.fresh(pairs[k].0, pairs[k].1)
                    },
            decreases fast_axis.len() - i,
        {
            let f = fast_axis[i];
            let ghost before = pairs;
            let mut j: usize = 0;
            while j < slow_axis.len()
                invariant
                    i < fast_axis.len(),
                    f == fast_axis@[i as int],
                    j <= slow_axis.len(),
                    before == crossover_pairs(fast_axis@.take(i as int), slow_axis@),
                    pairs == before + pairs_above(f, slow_axis@.take(j as int)),
                    agents@.len() == pairs.len(),
                    forall|k: int|
                        0 <= k < agents@.len() ==> {
                            &&& (#[trigger] agents@[k]).0 == k
                            &&& agents@[k].1.fresh(pairs[k].0, pairs[k].1)
                        },
                decreases slow_axis.len() - j,
            {
                let s = slow_axis[j];
                assert(slow_axis@.take(j + 1).drop_last() =~= slow_axis@.take(j as int));
                if f < s {
                    let uid = agents.len();
                    let agent = DemoAgent::new().with_fast_period(f).with_slow_period(s);
                    agents.push((uid, agent));
                    proof {
                        pairs = pairs.push((f, s));
                    }
                }
                j = j + 1;
                assert(pairs =~= before + pairs_above(f, slow_axis@.take(j as int)));
            }
            assert(slow_axis@.take(j as int) =~= slow_axis@);
            assert(fast_axis@.take(i + 1).drop_last() =~= fast_axis@.take(i as int));
            i = i + 1;
        }
        assert(fast_axis@.take(i as int) =~= fast_axis@);
        agents
    }
}

proof fn lemma_pairs_above_members(fast: u16, slow_axis: Seq<u16>, pair: (u16, u16))
    ensures
        pairs_above(fast, slow_axis).contains(pair) <==> (pair.0 == fast && fast < pair.1 && slow_axis.contains(pair.1)),
    decreases slow_axis.len(),
{
    if slow_axis.len() > 0 {
        let rest = slow_axis.drop_last();
        lemma_pairs_above_members(fast, rest, pair);
        assert(slow_axis =~= rest.push(slow_axis.last()));
        if slow_axis.contains(pair.1) && pair.1 != slow_axis.last() {
            let j = choose|j: int| 0 <= j < slow_axis.len() && slow_axis[j] == pair.1;
            assert(rest[j] == pair.1);
        }
        if rest.contains(pair.1) {
            let j = choose|j: int| 0 <= j < rest.len() && rest[j] == pair.1;
            assert(slow_axis[j] == pair.1);
        }
        if fast < slow_axis.last() {
            let front = pairs_above(fast, rest);
            let all = front.push((fast, slow_axis.last()));
            if all.contains(pair) && pair != (fast, slow_axis.last()) {
                let k = choose|k: int| 0 <= k < all.len() && all[k] == pair;
                assert(front[k] == pair);
            }
            if front.contains(pair) {
                let k = choose|k: int| 0 <= k < front.len() && front[k] == pair;
                assert(all[k] == pair);
            }
            assert(all[front.len() as int] == (fast, slow_axis.last()));
        }
    }
}

/// The crossover grid is exactly the filtered product: a pair is in it if and only if
/// its fast period comes from the fast axis, its slow period from the slow axis, and
/// the fast period is the shorter one.
pub proof fn law_crossover_grid_is_the_filtered_product(fast_axis: Seq<u16>, slow_axis: Seq<u16>, pair: (u16, u16))
    ensures
        crossover_pairs(fast_axis, slow_axis).contains(pair)
            <==> (fast_axis.contains(pair.0) && slow_axis.contains(pair.1) && pair.0 < pair.1),
    decreases fast_axis.len(),
{
    if fast_axis.len() > 0 {
        let rest = fast_axis.drop_last();
        let f = fast_axis.last();
        law_crossover_grid_is_the_filtered_product(rest, slow_axis, pair);
        lemma_pairs_above_members(f, slow_axis, pair);
        let left = crossover_pairs(rest, slow_axis);
        let right = pairs_above(f, slow_axis);
        let all = left + right;
        if all.contains(pair) {
            let k = choose|k: int| 0 <= k < all.len() && all[k] == pair;
            if k < left.len() {
                assert(left[k] == pair);
            } else {
                assert(right[k - left.len()] == pair);
            }
        }
        if left.contains(pair) {
            let k = choose|k: int| 0 <= k < left.len() && left[k] == pair;
            assert(all[k] == pair);
        }
        if right.contains(pair) {
            let k = choose|k: int| 0 <= k < right.len() && right[k] == pair;
            assert(all[left.len() + k] == pair);
        }
        if fast_axis.contains(pair.0) && pair.0 != f {
            let i = choose|i: int| 0 <= i < fast_axis.len() && fast_axis[i] == pair.0;
            assert(rest[i] == pair.0);
        }
        if rest.contains(pair.0) {
            let i = choose|i: int| 0 <= i < rest.len() && rest[i] == pair.0;
            assert(fast_axis[i] == pair.0);
        }
        assert(fast_axis[fast_axis.len() - 1] == f);
    }
}

/// Stop and reverse closes what it reverses: when the engine reports a trade of the
/// agent open on one side and the averages cross to the other, the orders are exactly a
/// market close of that trade followed by an open of the other side under the next id;
/// a crossover to the side already held, or level averages, leave the trade open with
/// no orders.
pub proof fn law_crossover_reverses_by_closing_then_opening(counter: i64, t: ActiveTrade)
    requires
        counter < i64::MAX,
    ensures
        t.direction == Direction::Short ==> crossover_commands(counter, Some(SmaCross::FastAbove), Some(t))
            == seq![
                Command::MarketClose { trade_id: t.trade_id },
                Command::Open { trade_id: (counter + 1) as i64, direction: Direction::Long },
            ],
        t.direction == Direction::Long ==> crossover_commands(counter, Some(SmaCross::FastBelow), Some(t))
            == seq![
                Command::MarketClose { trade_id: t.trade_id },
                Command::Open { trade_id: (counter + 1) as i64, direction: Direction::Short },
            ],
        t.direction == Direction::Long ==> crossover_commands(counter, Some(SmaCross::FastAbove), Some(t)).len() == 0,
        t.direction == Direction::Short ==> crossover_commands(counter, Some(SmaCross::FastBelow), Some(t)).len() == 0,
        crossover_commands(counter, Some(SmaCross::Level), Some(t)).len() == 0,
        crossover_commands(counter, None, Some(t)).len() == 0,
{
    assert(seq![Command::MarketClose { trade_id: t.trade_id }] + seq![
        Command::Open { trade_id: (counter + 1) as i64, direction: Direction::Long },
    ] =~= seq![
        Command::MarketClose { trade_id: t.trade_id },
        Command::Open { trade_id: (counter + 1) as i64, direction: Direction::Long },
    ]);
    assert(seq![Command::MarketClose { trade_id: t.trade_id }] + seq![
        Command::Open { trade_id: (counter + 1) as i64, direction: Direction::Short },
    ] =~= seq![
        Command::MarketClose { trade_id: t.trade_id },
        Command::Open { trade_id: (counter + 1) as i64, direction: Direction::Short },
    ]);
}

/// Entering from flat: with no trade open, a crossover up opens a long and a crossover
/// down opens a short, each under the next id and with nothing to close; while the
/// averages warm up or stand level the agent stays flat.
pub proof fn law_crossover_enters_from_flat(counter: i64)
    requires
        counter < i64::MAX,
    ensures
        crossover_commands(counter, Some(SmaCross::FastAbove), None)
            == seq![Command::Open { trade_id: (counter + 1) as i64, direction: Direction::Long }],
        crossover_commands(counter, Some(SmaCross::FastBelow), None)
            == seq![Command::Open { trade_id: (counter + 1) as i64, direction: Direction::Short }],
        crossover_commands(counter, Some(SmaCross::Level), None).len() == 0,
        crossover_commands(counter, None, None).len() == 0,
{
    assert(Seq::<Command>::empty() + seq![Command::Open { trade_id: (counter + 1) as i64, direction: Direction::Long }]
        =~= seq![Command::Open { trade_id: (counter + 1) as i64, direction: Direction::Long }]);
    assert(Seq::<Command>::empty() + seq![Command::Open { trade_id: (counter + 1) as i64, direction: Direction::Short }]
        =~= seq![Command::Open { trade_id: (counter + 1) as i64, direction: Direction::Short }]);
}

} // verus!
