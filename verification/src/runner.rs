//! The runner's own computations: which agent to run, how many grid agents to
//! evaluate and rank, the random subset of the grid, and where reports go.
use vstd::prelude::*;
use crate::text::{join, joined, parse_usize, parsed_usize, same_text, trim, trimmed};

verus! {

/// Grid agents evaluated when no limit is configured.
pub const DEFAULT_GRID_SEARCH_LIMIT: usize = 100;

/// The agent the runner backtests.
#[derive(Clone, Copy, Debug, PartialEq, Eq, Structural)]
pub enum ActiveAgent {
    Demo,
    Template,
}

/// The lower-case name of an agent.
pub open spec fn agent_name(agent: ActiveAgent) -> Seq<char> {
    match agent {
        ActiveAgent::Demo => seq!['d', 'e', 'm', 'o'],
        ActiveAgent::Template => seq!['t', 'e', 'm', 'p', 'l', 'a', 't', 'e'],
    }
}

/// The agent named exactly `name`, if any.
pub open spec fn agent_named(name: Seq<char>) -> Option<ActiveAgent> {
    if name == agent_name(ActiveAgent::Demo) {
        Some(ActiveAgent::Demo)
    } else if name == agent_name(ActiveAgent::Template) {
        Some(ActiveAgent::Template)
    } else {
        None
    }
}

/// The agent a configured value selects: its trimmed text names the agent; a missing
/// or unknown value selects the demo.
pub open spec fn configured_agent(raw: Option<Seq<char>>) -> ActiveAgent {
    match raw {
        Some(s) => match agent_named(trimmed(s)) {
            Some(a) => a,
            None => ActiveAgent::Demo,
        },
        None => ActiveAgent::Demo,
    }
}

impl ActiveAgent {
    /// The agent's lower-case name, used in report paths.
    pub fn as_str(&self) -> (s: &'static str)
        ensures
            s@ == agent_name(*self),
    {
        match self {
            ActiveAgent::Demo => {
                let s = "demo";
                proof {
                    reveal_strlit("demo");
                }
                s
            },
            ActiveAgent::Template => {
                let s = "template";
                proof {
                    reveal_strlit("template");
                }
                s
            },
        }
    }

    /// The agent whose lower-case name is exactly `name`.
    pub fn from_name(name: &str) -> (a: Option<ActiveAgent>)
        ensures
            a == agent_named(name@),
    {
        if same_text(name, ActiveAgent::Demo.as_str()) {
            Some(ActiveAgent::Demo)
        } else if same_text(name, ActiveAgent::Template.as_str()) {
            Some(ActiveAgent::Template)
        } else {
            None
        }
    }

    /// The agent selected by the configured value `raw` (surrounding white space is
    /// ignored); the demo when the value is missing or names no agent.
    pub fn from_config(raw: Option<&str>) -> (a: ActiveAgent)
        ensures
            a == configured_agent(match raw {
                Some(s) => Some(s@),
                None => None,
            }),
    {
        match raw {
            Some(s) => match ActiveAgent::from_name(trim(s)) {
                Some(a) => a,
                None => ActiveAgent::Demo,
            },
            None => ActiveAgent::Demo,
        }
    }
}

/// The number of grid agents a configured value asks for: its trimmed text as a
/// decimal count, or 100 when the value is missing or is not such a count.
pub open spec fn configured_limit(raw: Option<Seq<char>>) -> usize {
    match raw {
        Some(s) => match parsed_usize(trimmed(s)) {
            Some(n) => n,
            None => DEFAULT_GRID_SEARCH_LIMIT,
        },
        None => DEFAULT_GRID_SEARCH_LIMIT,
    }
}

/// How many grid agents to evaluate, from the configured value `raw`.
pub fn grid_search_limit(raw: Option<&str>) -> (n: usize)
    ensures
        n == configured_limit(match raw {
            Some(s) => Some(s@),
            None => None,
        }),
{
    match raw {
        Some(s) => match parse_usize(trim(s)) {
            Some(n) => n,
            None => DEFAULT_GRID_SEARCH_LIMIT,
        },
        None => DEFAULT_GRID_SEARCH_LIMIT,
    }
}

/// The number of best agents the leaderboard keeps: a tenth of the grid limit,
/// kept between 10 and 100.
pub open spec fn leaderboard_len(limit: usize) -> usize {
    let tenth = limit / 10;
    if tenth < 10 {
        10
    } else if tenth > 100 {
        100
    } else {
        tenth
    }
}

/// How many of the best grid agents the leaderboard keeps for grid limit `limit`.
pub fn leaderboard_size(limit: usize) -> (k: usize)
    ensures
        k == leaderboard_len(limit),
        10 <= k <= 100,
{
    let tenth = limit / 10;
    if tenth < 10 {
        10
    } else if tenth > 100 {
        100
    } else {
        tenth
    }
}

/// Calls `SliceRandom::shuffle` with `rand::rng()`. The permutation depends on chance;
/// the contract claims only what holds of every outcome: the same elements, each as
/// often as before.
#[verifier::external_body]
fn shuffle<T>(items: &mut Vec<T>)
    ensures
        final(items)@.len() == old(items)@.len(),
        final(items)@.to_multiset() == old(items)@.to_multiset(),
{
    rand::seq::SliceRandom::shuffle(items.as_mut_slice(), &mut rand::rng());
}

/// A random choice of at most `limit` agents of the grid: the grid is shuffled and
/// its first `limit` agents are kept. Whatever the shuffle gives, the result holds
/// `min(limit, grid size)` agents of the grid, none more often than the grid holds it.
pub fn subset<T>(agents: Vec<(usize, T)>, limit: usize) -> (chosen: Vec<(usize, T)>)
    ensures
        chosen@.len() == if limit < agents@.len() { limit as int } else { agents@.len() as int },
        chosen@.to_multiset().subset_of(agents@.to_multiset()),
        limit >= agents@.len() ==> chosen@.to_multiset() == agents@.to_multiset(),
{
    let mut agents = agents;
    let ghost before = agents@;
    shuffle(&mut agents);
    let ghost shuffled = agents@;
    agents.truncate(limit);
    proof {
        if limit < shuffled.len() {
            let kept = shuffled.subrange(0, limit as int);
            let dropped = shuffled.subrange(limit as int, shuffled.len() as int);
            assert(shuffled =~= kept + dropped);
            vstd::seq_lib::lemma_multiset_commutative(kept, dropped);
            assert(agents@ == kept);
            assert forall|x: (usize, T)| agents@.to_multiset().count(x) <= before.to_multiset().count(x) by {
                assert(shuffled.to_multiset().count(x) == kept.to_multiset().count(x) + dropped.to_multiset().count(x));
            }
        } else {
            assert(agents@ == shuffled);
        }
        assert(agents@.to_multiset().subset_of(before.to_multiset()));
    }
    agents
}

/// Where a report named `base_name` of `agent` goes under the cloud prefix `prefix`:
/// `<prefix>/<agent>/<base_name>.csv`, trailing slashes of the prefix collapsed.
pub open spec fn cloud_report_path(prefix: Seq<char>, agent: ActiveAgent, base_name: Seq<char>) -> Seq<char> {
    joined(prefix, agent_name(agent) + seq!['/'] + base_name + seq!['.', 'c', 's', 'v'])
}

/// The cloud destination of a report (see `cloud_report_path`).
pub fn cloud_report_destination(prefix: &str, agent: ActiveAgent, base_name: &str) -> (dest: String)
    ensures
        dest@ == cloud_report_path(prefix@, agent, base_name@),
{
    let mut file_name = String::from_str(agent.as_str());
    file_name.append("/");
    file_name.append(base_name);
    file_name.append(".csv");
    proof {
        reveal_strlit("/");
        reveal_strlit(".csv");
    }
    join(prefix, file_name.as_str())
}

/// Which agent runs: a configured value whose text, without surrounding white space, is
/// `demo` selects the demo agent and one that is `template` the template agent; a
/// missing value or any other text selects the demo.
pub proof fn law_configured_agent_follows_the_name(s: Seq<char>)
    ensures
        trimmed(s) == seq!['d', 'e', 'm', 'o'] ==> configured_agent(Some(s)) == ActiveAgent::Demo,
        trimmed(s) == seq!['t', 'e', 'm', 'p', 'l', 'a', 't', 'e'] ==> configured_agent(Some(s)) == ActiveAgent::Template,
        trimmed(s) != seq!['t', 'e', 'm', 'p', 'l', 'a', 't', 'e'] ==> configured_agent(Some(s)) == ActiveAgent::Demo,
        configured_agent(None) == ActiveAgent::Demo,
{
}

/// How many grid agents to evaluate: a configured value that is, without surrounding
/// white space, a decimal count selects that count; a missing value, or one that is not
/// a count, selects 100.
pub proof fn law_configured_limit_follows_the_count(s: Seq<char>, n: usize)
    ensures
        parsed_usize(trimmed(s)) == Some(n) ==> configured_limit(Some(s)) == n,
        parsed_usize(trimmed(s)) is None ==> configured_limit(Some(s)) == 100,
        configured_limit(None) == 100,
{
}

} // verus!
