//! The template agent: a three-phase state machine (looking for an entry, in a trade,
//! after a trade) whose exit rule closes a trade once it has been held for longer than
//! `max_holding_minutes`. The entry condition is a placeholder that never fires.
use vstd::prelude::*;
use crate::grid::{index_pairs, nested_position};
use crate::time::{chrono_whole_minutes, Instant};
use crate::trading::{BarClock, Command, Direction};

verus! {

/// The phase the agent is in.
#[derive(Clone, Copy, Debug, PartialEq, Eq, Structural)]
pub enum AgentState {
    /// Flat, looking for an entry.
    PreTrade,
    /// A trade was opened at `entry_time`.
    InTrade { entry_time: Instant },
    /// The last trade is over.
    PostTrade,
}

impl Default for AgentState {
    /// A new agent looks for an entry.
    fn default() -> (s: AgentState)
        ensures
            s == AgentState::PreTrade,
    {
        AgentState::PreTrade
    }
}

/// The outcome of the entry condition.
#[derive(Clone, Copy, Debug, PartialEq, Eq, Structural)]
pub enum EntrySignal {
    /// Open a trade in the given direction.
    Enter(Direction),
    /// Stay flat.
    Stay,
}

/// The outcome of the exit rule for an open trade.
#[derive(Clone, Copy, Debug, PartialEq, Eq, Structural)]
pub enum ExitDecision {
    Close,
    Hold,
}

/// Whole minutes from `entry` to `now`, as chrono counts them.
pub open spec fn minutes_held(now: Instant, entry: Instant) -> i64 {
    chrono_whole_minutes(now.unix_secs(), now.subsec_nanos(), entry.unix_secs(), entry.subsec_nanos())
}

/// The exit rule: close once the trade has been held longer than `max_holding_minutes`.
pub open spec fn exit_rule(held_minutes: i64, max_holding_minutes: i64) -> ExitDecision {
    if held_minutes > max_holding_minutes {
        ExitDecision::Close
    } else {
        ExitDecision::Hold
    }
}

/// One step of the state machine from phase `state` with last trade id `counter`:
/// the next phase, the orders, and the next last trade id. `active` is the id of the
/// agent's trade that the engine reports open; the engine is the source of truth for
/// whether a trade is still open.
pub open spec fn template_step(
    state: AgentState,
    counter: i64,
    max_holding_minutes: i64,
    signal: EntrySignal,
    now: Instant,
    active: Option<i64>,
) -> (AgentState, Seq<Command>, i64) {
    match state {
        AgentState::PreTrade => match signal {
            EntrySignal::Enter(d) => (
                AgentState::InTrade { entry_time: now },
                seq![Command::Open { trade_id: (counter + 1) as i64, direction: d }],
                (counter + 1) as i64,
            ),
            EntrySignal::Stay => (AgentState::PreTrade, seq![], counter),
        },
        AgentState::InTrade { entry_time } => match active {
            Some(id) => if exit_rule(minutes_held(now, entry_time), max_holding_minutes) == ExitDecision::Close {
                (AgentState::PostTrade, seq![Command::MarketClose { trade_id: id }], counter)
            } else {
                (state, seq![], counter)
            },
            None => (AgentState::PostTrade, seq![], counter),
        },
        AgentState::PostTrade => (AgentState::PreTrade, seq![], counter),
    }
}

/// The template agent's own state; the position size it trades is a floating-point
/// parameter that the driving program keeps beside it.
#[derive(Clone, Copy, Debug)]
pub struct TemplateAgent {
    max_holding_minutes: i64,
    state: AgentState,
    trade_counter: i64,
    clock: BarClock,
}

impl TemplateAgent {
    /// How long a trade may stay open before the exit rule closes it.
    pub closed spec fn max_holding(self) -> i64 {
        self.max_holding_minutes
    }

    /// The current phase.
    pub closed spec fn phase(self) -> AgentState {
        self.state
    }

    /// The last trade id handed out; 0 before the first trade.
    pub closed spec fn counter(self) -> i64 {
        self.trade_counter
    }

    /// The close of the last bar the agent advanced on.
    pub closed spec fn last_bar(self) -> Option<Instant> {
        self.clock.last()
    }

    /// The agent with the given holding limit and a fresh trading state.
    pub open spec fn fresh(self, max_holding_minutes: i64) -> bool {
        &&& self.max_holding() == max_holding_minutes
        &&& self.phase() == AgentState::PreTrade
        &&& self.counter() == 0
        &&& self.last_bar() is None
    }

    /// The default agent: trades close after 30 minutes.
    pub fn new() -> (a: TemplateAgent)
        ensures
            a.fresh(30),
    {
        TemplateAgent {
            max_holding_minutes: 30,
            state: AgentState::PreTrade,
            trade_counter: 0,
            clock: BarClock::new(),
        }
    }

    /// The same agent with holding limit `max_holding_minutes`.
    pub fn with_max_holding_minutes(self, max_holding_minutes: i64) -> (a: TemplateAgent)
        ensures
            a.max_holding() == max_holding_minutes,
            a.phase() == self.phase(),
            a.counter() == self.counter(),
            a.last_bar() == self.last_bar(),
    {
        TemplateAgent { max_holding_minutes, ..self }
    }

    /// How long a trade may stay open before the exit rule closes it.
    pub fn max_holding_minutes(&self) -> (m: i64)
        ensures
            m == self.max_holding(),
    {
        self.max_holding_minutes
    }

    /// The current phase.
    pub fn state(&self) -> (s: AgentState)
        ensures
            s == self.phase(),
    {
        self.state
    }

    /// The last trade id handed out.
    pub fn trade_counter(&self) -> (c: i64)
        ensures
            c == self.counter(),
    {
        self.trade_counter
    }

    /// Starts a new episode: back to looking for an entry, trade ids restart, no bar
    /// seen; the holding limit stays.
    pub fn reset(&mut self)
        ensures
            final(self).fresh(old(self).max_holding()),
    {
        self.state = AgentState::PreTrade;
        self.trade_counter = 0;
        self.clock = BarClock::new();
    }

    /// The entry condition, evaluated while looking for an entry. It is the place for a
    /// strategy's own rule; as shipped it never fires.
    pub fn entry_signal(&self) -> (s: EntrySignal)
        ensures
            s == EntrySignal::Stay,
    {
        EntrySignal::Stay
    }

    /// The exit rule for a trade held `held_minutes`.
    pub fn exit_decision(&self, held_minutes: i64) -> (d: ExitDecision)
        ensures
            d == exit_rule(held_minutes, self.max_holding()),
    {
        if held_minutes > self.max_holding_minutes {
            ExitDecision::Close
        } else {
            ExitDecision::Hold
        }
    }

    /// One step of the state machine with entry outcome `signal`, at time `now`, with
    /// `active` the id of the agent's open trade as the engine reports it.
    pub fn step(&mut self, signal: EntrySignal, now: Instant, active: Option<i64>) -> (cmds: Vec<Command>)
        requires
            old(self).phase() == AgentState::PreTrade && signal is Enter ==> old(self).counter() < i64::MAX,
        ensures
            ({
                let next = template_step(old(self).phase(), old(self).counter(), old(self).max_holding(), signal, now, active);
                &&& final(self).phase() == next.0
                &&& cmds@ == next.1
                &&& final(self).counter() == next.2
            }),
            final(self).max_holding() == old(self).max_holding(),
            final(self).last_bar() == old(self).last_bar(),
    {
        let mut cmds: Vec<Command> = Vec::new();
        match self.state {
            AgentState::PreTrade => match signal {
                EntrySignal::Enter(d) => {
                    self.state = AgentState::InTrade { entry_time: now };
                    self.trade_counter = self.trade_counter + 1;
                    cmds.push(Command::Open { trade_id: self.trade_counter, direction: d });
                },
                EntrySignal::Stay => {},
            },
            AgentState::InTrade { entry_time } => {
                let held = now.minutes_since(&entry_time);
                let decision = self.exit_decision(held);
                match active {
                    Some(id) => {
                        if decision == ExitDecision::Close {
                            self.state = AgentState::PostTrade;
                            cmds.push(Command::MarketClose { trade_id: id });
                        }
                    },
                    None => {
                        self.state = AgentState::PostTrade;
                    },
                }
            },
            AgentState::PostTrade => {
                self.state = AgentState::PreTrade;
            },
        }
        proof {
            let next = template_step(old(self).phase(), old(self).counter(), old(self).max_holding(), signal, now, active);
            assert(cmds@ =~= next.1);
        }
        cmds
    }

    /// The agent's response to one call of the engine. With no bar yet on its stream it
    /// waits and changes nothing; otherwise it records the bar and takes one step of the
    /// state machine with its entry condition.
    pub fn act(&mut self, bar_close: Option<Instant>, now: Instant, active: Option<i64>) -> (cmds: Vec<Command>)
        ensures
            bar_close is None ==> cmds@.len() == 0 && *final(self) == *old(self),
            bar_close matches Some(close) ==> {
                let next = template_step(old(self).phase(), old(self).counter(), old(self).max_holding(), EntrySignal::Stay, now, active);
                &&& final(self).last_bar() == Some(close)
                &&& final(self).phase() == next.0
                &&& cmds@ == next.1
                &&& final(self).counter() == next.2
            },
            final(self).max_holding() == old(self).max_holding(),
    {
        let close = match bar_close {
            None => {
                return Vec::new();
            },
            Some(c) => c,
        };
        let _ = self.clock.observe(close);
        let signal = self.entry_signal();
        self.step(signal, now, active)
    }
}

/// The parameter grid of the template agent: holding limits to sweep, and the number
/// of points on the floating-point position-size axis that the driver generates.
pub struct TemplateAgentGrid {
    pub max_holding_minutes_grid: Vec<i64>,
    pub position_size_points: usize,
}

impl TemplateAgentGrid {
    /// Holding limits 30, 60, ..., 240 minutes, with `position_size_points` position sizes.
    pub fn baseline(position_size_points: usize) -> (g: TemplateAgentGrid)
        ensures
            g.max_holding_minutes_grid@ == Seq::new(8, |i: int| (30 * (i + 1)) as i64),
            g.position_size_points == position_size_points,
    {
        let mut grid: Vec<i64> = Vec::new();
        let mut m: i64 = 30;
        while m <= 240
            invariant
                30 <= m <= 270,
                m % 30 == 0,
                grid@ == Seq::new((m / 30 - 1) as nat, |i: int| (30 * (i + 1)) as i64),
            decreases 270 - m,
        {
            grid.push(m);
            m = m + 30;
            assert(grid@ =~= Seq::new((m / 30 - 1) as nat, |i: int| (30 * (i + 1)) as i64));
        }
        TemplateAgentGrid { max_holding_minutes_grid: grid, position_size_points }
    }

    /// Every point of the grid with its id, walked as nested loops with the holding
    /// limit outer: id `k` gets a fresh default agent with holding limit
    /// `max_holding_minutes_grid[k / n]` and position-size index `k % n`, where `n` is
    /// `position_size_points`.
    pub fn build(self) -> (agents: Vec<(usize, TemplateAgent, usize)>)
        requires
            self.max_holding_minutes_grid@.len() * self.position_size_points <= usize::MAX,
        ensures
            agents@.len() == self.max_holding_minutes_grid@.len() * self.position_size_points,
            forall|k: int|
                0 <= k < agents@.len() ==> {
                    let (i, j) = nested_position(k, self.position_size_points as int);
                    &&& (#[trigger] agents@[k]).0 == k
                    &&& agents@[k].1.fresh(self.max_holding_minutes_grid@[i])
                    &&& agents@[k].2 == j
                },
    {
        let outer = &self.max_holding_minutes_grid;
        let n = self.position_size_points;
        let pairs = index_pairs(outer.len(), n);
        let mut agents: Vec<(usize, TemplateAgent, usize)> = Vec::new();
        let mut k: usize = 0;
        while k < pairs.len()
            invariant
                k <= pairs@.len(),
                pairs@.len() == outer@.len() * n,
                forall|m: int|
                    0 <= m < pairs@.len() ==> {
                        let (a, b) = nested_position(m, n as int);
                        &&& (#[trigger] pairs@[m]) == (a as usize, b as usize)
                        &&& 0 <= a < outer@.len()
                        &&& 0 <= b < n
                    },
                agents@.len() == k,
                forall|m: int|
                    0 <= m < k ==> {
                        let (a, b) = nested_position(m, n as int);
                        &&& (#[trigger] agents@[m]).0 == m
                        &&& agents@[m].1.fresh(outer@[a])
                        &&& agents@[m].2 == b
                    },
            decreases pairs@.len() - k,
        {
            let (i, j) = pairs[k];
            agents.push((k, TemplateAgent::new().with_max_holding_minutes(outer[i]), j));
            k = k + 1;
        }
        agents
    }
}

impl Default for TemplateAgent {
    /// The default agent, as `TemplateAgent::new`.
    fn default() -> (a: TemplateAgent)
        ensures
            a.fresh(30),
    {
        TemplateAgent::new()
    }
}

/// Re-arming: after a trade is over the agent goes straight back to looking for an
/// entry, without orders, so it can trade again on a later bar.
pub proof fn law_template_rearms_after_a_trade(counter: i64, max: i64, signal: EntrySignal, now: Instant, active: Option<i64>)
    ensures
        template_step(AgentState::PostTrade, counter, max, signal, now, active)
            == (AgentState::PreTrade, Seq::<Command>::empty(), counter),
{
}

/// The engine is the source of truth: when it no longer reports the trade open (its
/// stop loss or take profit filled), the agent leaves the trade without orders.
pub proof fn law_template_follows_the_engine(entry_time: Instant, counter: i64, max: i64, signal: EntrySignal, now: Instant)
    ensures
        template_step(AgentState::InTrade { entry_time }, counter, max, signal, now, None)
            == (AgentState::PostTrade, Seq::<Command>::empty(), counter),
{
}

/// The exit rule: an open trade is closed at market exactly when it has been held for
/// longer than `max` minutes, and is otherwise kept (also at exactly `max` minutes).
pub proof fn law_template_exit_rule(entry_time: Instant, counter: i64, max: i64, signal: EntrySignal, now: Instant, id: i64)
    ensures
        minutes_held(now, entry_time) > max ==> template_step(AgentState::InTrade { entry_time }, counter, max, signal, now, Some(id))
            == (AgentState::PostTrade, seq![Command::MarketClose { trade_id: id }], counter),
        minutes_held(now, entry_time) <= max ==> template_step(AgentState::InTrade { entry_time }, counter, max, signal, now, Some(id))
            == (AgentState::InTrade { entry_time }, Seq::<Command>::empty(), counter),
{
}

/// As shipped the entry condition never fires, so an agent looking for an entry stays
/// flat and hands the engine nothing.
pub proof fn law_template_never_enters_as_shipped(counter: i64, max: i64, now: Instant, active: Option<i64>)
    ensures
        template_step(AgentState::PreTrade, counter, max, EntrySignal::Stay, now, active)
            == (AgentState::PreTrade, Seq::<Command>::empty(), counter),
{
}

/// A round trip: entering at `t0` opens a trade under a fresh id; once the engine
/// reports that trade open at `t1`, held longer than `max` minutes, it is closed; the step
/// after that looks for an entry again. The trade closed is the trade opened.
pub proof fn law_template_round_trip(counter: i64, max: i64, d: Direction, t0: Instant, t1: Instant, t2: Instant, active2: Option<i64>)
    requires
        counter < i64::MAX,
        minutes_held(t1, t0) > max,
    ensures
        ({
            let s1 = template_step(AgentState::PreTrade, counter, max, EntrySignal::Enter(d), t0, None);
            let s2 = template_step(s1.0, s1.2, max, EntrySignal::Stay, t1, Some((counter + 1) as i64));
            let s3 = template_step(s2.0, s2.2, max, EntrySignal::Stay, t2, active2);
            &&& s1.1 == seq![Command::Open { trade_id: (counter + 1) as i64, direction: d }]
            &&& s2.1 == seq![Command::MarketClose { trade_id: (counter + 1) as i64 }]
            &&& s3.0 == AgentState::PreTrade
            &&& s3.2 == counter + 1
        }),
{
}

/// Entry in the template agent: looking for an entry, staying flat hands the engine
/// nothing; entering in a direction opens that side under the next id and starts the
/// trade at `now`, whatever the engine reports.
pub proof fn law_template_enters_on_its_signal(counter: i64, max: i64, d: Direction, now: Instant, active: Option<i64>)
    requires
        counter < i64::MAX,
    ensures
        template_step(AgentState::PreTrade, counter, max, EntrySignal::Enter(d), now, active) == (
            AgentState::InTrade { entry_time: now },
            seq![Command::Open { trade_id: (counter + 1) as i64, direction: d }],
            (counter + 1) as i64,
        ),
        template_step(AgentState::PreTrade, counter, max, EntrySignal::Stay, now, active)
            == (AgentState::PreTrade, Seq::<Command>::empty(), counter),
{
}

} // verus!
