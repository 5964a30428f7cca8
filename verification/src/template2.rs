//! The one-trade template agent: the same three phases, a fixed 30-minute exit, and an
//! after-trade phase that waits for the next episode.
use vstd::prelude::*;
use crate::grid::{index_pairs, nested_position};
use crate::template::{minutes_held, AgentState};
use crate::time::Instant;
use crate::trading::{BarClock, Command, Direction};

verus! {

/// How long this agent holds a trade before its exit rule closes it.
pub const HOLDING_LIMIT_MINUTES: i64 = 30;

/// One step of this agent's state machine: the next phase, the orders and the next
/// last trade id. `entry` is the outcome of the entry condition; an entry opens a long
/// trade. After a trade the agent stays put until the episode resets it.
pub open spec fn template2_step(state: AgentState, counter: i64, entry: bool, now: Instant, active: Option<i64>) -> (AgentState, Seq<Command>, i64) {
    match state {
        AgentState::PreTrade => if entry {
            (
                AgentState::InTrade { entry_time: now },
                seq![Command::Open { trade_id: (counter + 1) as i64, direction: Direction::Long }],
                (counter + 1) as i64,
            )
        } else {
            (AgentState::PreTrade, seq![], counter)
        },
        AgentState::InTrade { entry_time } => match active {
            Some(id) => if minutes_held(now, entry_time) >= HOLDING_LIMIT_MINUTES {
                (AgentState::PostTrade, seq![Command::MarketClose { trade_id: id }], counter)
            } else {
                (state, seq![], counter)
            },
            None => (AgentState::PostTrade, seq![], counter),
        },
        AgentState::PostTrade => (AgentState::PostTrade, seq![], counter),
    }
}

/// The one-trade template agent's own state; its floating-point parameter is kept by the
/// driving program.
#[derive(Clone, Copy, Debug)]
pub struct TemplateAgent {
    param_i32: i32,
    state: AgentState,
    trade_counter: i64,
    clock: BarClock,
}

impl TemplateAgent {
    /// The integer grid parameter.
    pub closed spec fn int_param(self) -> i32 {
        self.param_i32
    }

    /// The current phase.
    pub closed spec fn phase(self) -> AgentState {
        self.state
    }

    /// The last trade id handed out; 0 before the first trade.
    pub closed spec fn counter(self) -> i64 {
        self.trade_counter
    }

    /// The close of the last bar the agent advanced on.
    pub closed spec fn last_bar(self) -> Option<Instant> {
        self.clock.last()
    }

    /// The agent with integer parameter `p` and a fresh trading state.
    pub open spec fn fresh(self, p: i32) -> bool {
        &&& self.int_param() == p
        &&& self.phase() == AgentState::PreTrade
        &&& self.counter() == 0
        &&& self.last_bar() is None
    }

    /// The default agent, with integer parameter 1.
    pub fn new() -> (a: TemplateAgent)
        ensures
            a.fresh(1),
    {
        TemplateAgent { param_i32: 1, state: AgentState::PreTrade, trade_counter: 0, clock: BarClock::new() }
    }

    /// The same agent with integer parameter `param_i32`.
    pub fn with_param_i32(self, param_i32: i32) -> (a: TemplateAgent)
        ensures
            a.int_param() == param_i32,
            a.phase() == self.phase(),
            a.counter() == self.counter(),
            a.last_bar() == self.last_bar(),
    {
        TemplateAgent { param_i32, ..self }
    }

    /// The integer grid parameter.
    pub fn param_i32(&self) -> (p: i32)
        ensures
            p == self.int_param(),
    {
        self.param_i32
    }

    /// The current phase.
    pub fn state(&self) -> (s: AgentState)
        ensures
            s == self.phase(),
    {
        self.state
    }

    /// The last trade id handed out.
    pub fn trade_counter(&self) -> (c: i64)
        ensures
            c == self.counter(),
    {
        self.trade_counter
    }

    /// Starts a new episode: back to looking for an entry, trade ids restart, no bar seen.
    pub fn reset(&mut self)
        ensures
            final(self).fresh(old(self).int_param()),
    {
        self.state = AgentState::PreTrade;
        self.trade_counter = 0;
        self.clock = BarClock::new();
    }

    /// The entry condition; as shipped it never holds.
    pub fn entry_signal(&self) -> (b: bool)
        ensures
            !b,
    {
        false
    }

    /// One step of the state machine with entry outcome `entry`, at time `now`, with
    /// `active` the id of the agent's open trade as the engine reports it.
    pub fn step(&mut self, entry: bool, now: Instant, active: Option<i64>) -> (cmds: Vec<Command>)
        requires
            old(self).phase() == AgentState::PreTrade && entry ==> old(self).counter() < i64::MAX,
        ensures
            ({
                let next = template2_step(old(self).phase(), old(self).counter(), entry, now, active);
                &&& final(self).phase() == next.0
                &&& cmds@ == next.1
                &&& final(self).counter() == next.2
            }),
            final(self).int_param() == old(self).int_param(),
            final(self).last_bar() == old(self).last_bar(),
    {
        let mut cmds: Vec<Command> = Vec::new();
        match self.state {
            AgentState::PreTrade => {
                if entry {
                    self.state = AgentState::InTrade { entry_time: now };
                    self.trade_counter = self.trade_counter + 1;
                    cmds.push(Command::Open { trade_id: self.trade_counter, direction: Direction::Long });
                }
            },
            AgentState::InTrade { entry_time } => {
                let time_exit = now.minutes_since(&entry_time) >= HOLDING_LIMIT_MINUTES;
                match active {
                    Some(id) => {
                        if time_exit {
                            self.state = AgentState::PostTrade;
                            cmds.push(Command::MarketClose { trade_id: id });
                        }
                    },
                    None => {
                        self.state = AgentState::PostTrade;
                    },
                }
            },
            AgentState::PostTrade => {},
        }
        proof {
            let next = template2_step(old(self).phase(), old(self).counter(), entry, now, active);
            assert(cmds@ =~= next.1);
        }
        cmds
    }

    /// The agent's response to one call of the engine. With no bar yet on its stream it
    /// waits and changes nothing; otherwise it records the bar and takes one step of the
    /// state machine with its entry condition.
    pub fn act(&mut self, bar_close: Option<Instant>, now: Instant, active: Option<i64>) -> (cmds: Vec<Command>)
        ensures
            bar_close is None ==> cmds@.len() == 0 && *final(self) == *old(self),
            bar_close matches Some(close) ==> {
                let next = template2_step(old(self).phase(), old(self).counter(), false, now, active);
                &&& final(self).last_bar() == Some(close)
                &&& final(self).phase() == next.0
                &&& cmds@ == next.1
                &&& final(self).counter() == next.2
            },
            final(self).int_param() == old(self).int_param(),
    {
        let close = match bar_close {
            None => {
                return Vec::new();
            },
            Some(c) => c,
        };
        let _ = self.clock.observe(close);
        let entry = self.entry_signal();
        self.step(entry, now, active)
    }
}

/// The parameter grid of the one-trade template agent: integer parameters to sweep, and
/// the number of points on the floating-point axis that the driver generates.
pub struct TemplateAgentGrid {
    pub i32_grid: Vec<i32>,
    pub f64_points: usize,
}

impl TemplateAgentGrid {
    /// Integer parameters -5 to 4, with `f64_points` floating-point values.
    pub fn baseline(f64_points: usize) -> (g: TemplateAgentGrid)
        ensures
            g.i32_grid@ == Seq::new(10, |i: int| (i - 5) as i32),
            g.f64_points == f64_points,
    {
        let mut grid: Vec<i32> = Vec::new();
        let mut p: i32 = -5;
        while p < 5
            invariant
                -5 <= p <= 5,
                grid@ == Seq::new((p + 5) as nat, |i: int| (i - 5) as i32),
            decreases 5 - p,
        {
            grid.push(p);
            p = p + 1;
            assert(grid@ =~= Seq::new((p + 5) as nat, |i: int| (i - 5) as i32));
        }
        TemplateAgentGrid { i32_grid: grid, f64_points }
    }

    /// Every point of the grid with its id, walked as nested loops with the integer
    /// axis outer: id `k` gets a fresh default agent with integer parameter
    /// `i32_grid[k / n]` and floating-point index `k % n`, where `n` is `f64_points`.
    pub fn build(self) -> (agents: Vec<(usize, TemplateAgent, usize)>)
        requires
            self.i32_grid@.len() * self.f64_points <= usize::MAX,
        ensures
            agents@.len() == self.i32_grid@.len() * self.f64_points,
            forall|k: int|
                0 <= k < agents@.len() ==> {
                    let (i, j) = nested_position(k, self.f64_points as int);
                    &&& (#[trigger] agents@[k]).0 == k
                    &&& agents@[k].1.fresh(self.i32_grid@[i])
                    &&& agents@[k].2 == j
                },
    {
        let outer = &self.i32_grid;
        let n = self.f64_points;
        let pairs = index_pairs(outer.len(), n);
        let mut agents: Vec<(usize, TemplateAgent, usize)> = Vec::new();
        let mut k: usize = 0;
        while k < pairs.len()
            invariant
                k <= pairs@.len(),
                pairs@.len() == outer@.len() * n,
                forall|m: int|
                    0 <= m < pairs@.len() ==> {
                        let (a, b) = nested_position(m, n as int);
                        &&& (#[trigger] pairs@[m]) == (a as usize, b as usize)
                        &&& 0 <= a < outer@.len()
                        &&& 0 <= b < n
                    },
                agents@.len() == k,
                forall|m: int|
                    0 <= m < k ==> {
                        let (a, b) = nested_position(m, n as int);
                        &&& (#[trigger] agents@[m]).0 == m
                        &&& agents@[m].1.fresh(outer@[a])
                        &&& agents@[m].2 == b
                    },
            decreases pairs@.len() - k,
        {
            let (i, j) = pairs[k];
            agents.push((k, TemplateAgent::new().with_param_i32(outer[i]), j));
            k = k + 1;
        }
        agents
    }
}

/// One trade per episode: once a trade is over the agent stays after it, with no
/// orders, whatever the engine reports, until the episode resets it.
pub proof fn law_template2_waits_after_a_trade(counter: i64, entry: bool, now: Instant, active: Option<i64>)
    ensures
        template2_step(AgentState::PostTrade, counter, entry, now, active)
            == (AgentState::PostTrade, Seq::<Command>::empty(), counter),
{
}

/// The fixed exit: a trade the engine still reports open is closed exactly when it
/// has been held 30 minutes or more; a trade the engine closed ends the phase quietly.
pub proof fn law_template2_exit_rule(entry_time: Instant, counter: i64, entry: bool, now: Instant, active: Option<i64>)
    ensures
        ({
            let next = template2_step(AgentState::InTrade { entry_time }, counter, entry, now, active);
            match active {
                Some(id) => if minutes_held(now, entry_time) >= 30 {
                    next == (AgentState::PostTrade, seq![Command::MarketClose { trade_id: id }], counter)
                } else {
                    next == (AgentState::InTrade { entry_time }, Seq::<Command>::empty(), counter)
                },
                None => next == (AgentState::PostTrade, Seq::<Command>::empty(), counter),
            }
        }),
{
}

/// The phase, orders and last trade id after a run of `act` calls with a bar, one per
/// event `(now, active)`, starting from phase `state` and last trade id `counter`.
pub open spec fn template2_run(state: AgentState, counter: i64, events: Seq<(Instant, Option<i64>)>) -> (AgentState, Seq<Command>, i64)
    decreases events.len(),
{
    if events.len() == 0 {
        (state, seq![], counter)
    } else {
        let before = template2_run(state, counter, events.drop_last());
        let e = events.last();
        let next = template2_step(before.0, before.2, false, e.0, e.1);
        (next.0, before.1 + next.1, next.2)
    }
}

/// One trade per episode, over any number of calls: once the trade is over, every later
/// call leaves the agent after its trade and hands the engine nothing, until a reset.
pub proof fn law_template2_stays_after_its_trade(counter: i64, events: Seq<(Instant, Option<i64>)>)
    ensures
        template2_run(AgentState::PostTrade, counter, events) == (AgentState::PostTrade, Seq::<Command>::empty(), counter),
    decreases events.len(),
{
    if events.len() > 0 {
        law_template2_stays_after_its_trade(counter, events.drop_last());
        assert(Seq::<Command>::empty() + Seq::<Command>::empty() =~= Seq::<Command>::empty());
    }
}

/// Entry in the one-trade agent: looking for an entry, a false entry condition hands
/// the engine nothing and keeps looking, with the last trade id unchanged; a true one
/// opens a long under the next id and starts the trade at `now`.
pub proof fn law_template2_enters_only_on_its_condition(counter: i64, now: Instant, active: Option<i64>)
    ensures
        template2_step(AgentState::PreTrade, counter, false, now, active)
            == (AgentState::PreTrade, Seq::<Command>::empty(), counter),
        counter < i64::MAX ==> template2_step(AgentState::PreTrade, counter, true, now, active) == (
            AgentState::InTrade { entry_time: now },
            seq![Command::Open { trade_id: (counter + 1) as i64, direction: Direction::Long }],
            (counter + 1) as i64,
        ),
{
}

} // verus!
