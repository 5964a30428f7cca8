//! The agents' view of trades: directions, the commands they hand the engine, and
//! the per-stream bar clock that keeps `act` idempotent.
use vstd::prelude::*;
use crate::time::Instant;

verus! {

/// The side of a trade.
#[derive(Clone, Copy, Debug, PartialEq, Eq, Structural)]
pub enum Direction {
    Long,
    Short,
}

/// A trade of this agent that the engine reports as open.
#[derive(Clone, Copy, Debug, PartialEq, Eq, Structural)]
pub struct ActiveTrade {
    pub trade_id: i64,
    pub direction: Direction,
}

/// An order an agent hands the engine.
#[derive(Clone, Copy, Debug, PartialEq, Eq, Structural)]
pub enum Command {
    /// Open a market order under a fresh trade id.
    Open { trade_id: i64, direction: Direction },
    /// Close the whole of the given trade at market.
    MarketClose { trade_id: i64 },
}

/// The close time of the last bar an agent advanced on, for one data stream.
#[derive(Clone, Copy, Debug)]
pub struct BarClock {
    last_close: Option<Instant>,
}

impl BarClock {
    /// The close time of the last bar advanced on, if any.
    pub closed spec fn last(self) -> Option<Instant> {
        self.last_close
    }

    /// Whether a bar closing at `close` is new to a clock whose last bar is `last`.
    pub open spec fn advances(last: Option<Instant>, close: Instant) -> bool {
        last != Some(close)
    }

    /// The close time of the last bar advanced on, if any.
    pub fn last_close(&self) -> (c: Option<Instant>)
        ensures
            c == self.last(),
    {
        self.last_close
    }

    /// A clock that has seen no bar.
    pub fn new() -> (c: BarClock)
        ensures
            c.last() is None,
    {
        BarClock { last_close: None }
    }

    /// Records the bar that closes at `close`; returns whether it is a bar the
    /// clock has not just seen, in which case the agent advances its state.
    pub fn observe(&mut self, close: Instant) -> (is_new: bool)
        ensures
            is_new == BarClock::advances(old(self).last(), close),
            final(self).last() == Some(close),
    {
        let is_new = match self.last_close {
            Some(prev) => prev != close,
            None => true,
        };
        if is_new {
            self.last_close = Some(close);
        }
        is_new
    }
}

/// Idempotency: once a clock has observed the bar closing at `close`, observing that
/// bar again does not advance, and leaves the clock where it was; a first bar always
/// advances, and so does any bar whose close differs from the last one.
pub proof fn law_bar_advances_once(close: Instant, other: Instant)
    ensures
        !BarClock::advances(Some(close), close),
        BarClock::advances(None, close),
        other != close ==> BarClock::advances(Some(other), close),
{
}

} // verus!
