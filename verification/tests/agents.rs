use chapaty_template::breakout::{BreakoutAgent, BreakoutAgentGrid};
use chapaty_template::demo::{DemoAgent, DemoAgentGrid, SmaCross};
use chapaty_template::template::{AgentState, EntrySignal, ExitDecision, TemplateAgent, TemplateAgentGrid};
use chapaty_template::template2;
use chapaty_template::time::Instant;
use chapaty_template::trading::{ActiveTrade, BarClock, Command, Direction};

fn at(secs: i64) -> Instant {
    Instant::from_unix(secs, 0).expect("representable instant")
}

fn long(id: i64) -> ActiveTrade {
    ActiveTrade { trade_id: id, direction: Direction::Long }
}

fn short(id: i64) -> ActiveTrade {
    ActiveTrade { trade_id: id, direction: Direction::Short }
}

#[test]
fn instant_from_unix_accepts_what_chrono_represents() {
    let t = Instant::from_unix(1_700_000_000, 5).unwrap();
    assert_eq!(t.secs(), 1_700_000_000);
    assert_eq!(t.nanos(), 5);
    // A leap second is only representable at the end of a minute.
    assert!(Instant::from_unix(59, 1_500_000_000).is_some());
    assert!(Instant::from_unix(60, 1_500_000_000).is_none());
    assert!(Instant::from_unix(0, 2_000_000_000).is_none());
    assert!(Instant::from_unix(i64::MAX, 0).is_none());
    assert!(Instant::from_unix(i64::MIN, 0).is_none());
}

#[test]
fn minutes_since_counts_whole_minutes_toward_zero() {
    let t0 = at(1_000_000);
    assert_eq!(at(1_000_000 + 30 * 60).minutes_since(&t0), 30);
    assert_eq!(at(1_000_000 + 30 * 60 - 1).minutes_since(&t0), 29);
    assert_eq!(at(1_000_000 - 90).minutes_since(&t0), -1);
    let half = Instant::from_unix(1_000_000 + 59, 999_999_999).unwrap();
    assert_eq!(half.minutes_since(&t0), 0);
    assert_eq!(t0.minutes_since(&t0), 0);
    assert_eq!(at(1_000_000 - 60).minutes_since(&t0), -1);
    assert_eq!(at(1_000_000 - 119).minutes_since(&t0), -1);
    assert_eq!(at(1_000_000 + 3 * 86_400 + 7).minutes_since(&t0), 3 * 1440);
    // A leap second counts in the span: 59 s plus 1.5 s.
    let leap = Instant::from_unix(59, 1_500_000_000).unwrap();
    assert_eq!(leap.minutes_since(&at(0)), 1);
    assert_eq!(at(0).minutes_since(&leap), -1);
}

#[test]
fn bar_clock_advances_once_per_bar() {
    let mut clock = BarClock::new();
    assert!(clock.observe(at(100)));
    assert!(!clock.observe(at(100)));
    assert!(!clock.observe(at(100)));
    assert!(clock.observe(at(200)));
    assert!(clock.observe(at(100)));
}

#[test]
fn demo_defaults_and_builders() {
    let a = DemoAgent::new();
    assert_eq!((a.fast_period(), a.slow_period(), a.trade_counter()), (20, 50, 0));
    let b = a.with_fast_period(12).with_slow_period(41);
    assert_eq!((b.fast_period(), b.slow_period()), (12, 41));
}

#[test]
fn demo_waits_while_averages_warm_up() {
    let mut a = DemoAgent::new();
    assert!(a.decide(None, None).is_empty());
    assert!(a.decide(None, Some(long(3))).is_empty());
    assert_eq!(a.trade_counter(), 0);
}

#[test]
fn demo_stops_and_reverses() {
    let mut a = DemoAgent::new();
    let open = a.decide(Some(SmaCross::FastAbove), None);
    assert_eq!(open, vec![Command::Open { trade_id: 1, direction: Direction::Long }]);
    // Same side: no churn.
    assert!(a.decide(Some(SmaCross::FastAbove), Some(long(1))).is_empty());
    // Crossover down: close the long, then open a short under the next id.
    let flip = a.decide(Some(SmaCross::FastBelow), Some(long(1)));
    assert_eq!(
        flip,
        vec![
            Command::MarketClose { trade_id: 1 },
            Command::Open { trade_id: 2, direction: Direction::Short },
        ]
    );
    // Level averages are no signal: the open trade stays open.
    assert!(a.decide(Some(SmaCross::Level), Some(short(2))).is_empty());
    assert!(a.decide(Some(SmaCross::Level), None).is_empty());
    // Flat with a signal: open.
    assert_eq!(
        a.decide(Some(SmaCross::FastAbove), None),
        vec![Command::Open { trade_id: 3, direction: Direction::Long }]
    );
    assert_eq!(a.trade_counter(), 3);
}

#[test]
fn demo_reset_keeps_periods() {
    let mut a = DemoAgent::new().with_fast_period(11);
    a.observe_bar(at(5));
    a.decide(Some(SmaCross::FastBelow), None);
    a.reset();
    assert_eq!((a.fast_period(), a.slow_period(), a.trade_counter()), (11, 50, 0));
    assert!(a.observe_bar(at(5)));
    assert!(!a.observe_bar(at(5)));
}

#[test]
fn demo_grid_baseline_builds_every_crossing_pair() {
    let grid = DemoAgentGrid::baseline();
    assert_eq!(grid.fast_period, (10..=30).collect::<Vec<u16>>());
    assert_eq!(grid.slow_period, (40..=60).collect::<Vec<u16>>());
    let agents = grid.build();
    assert_eq!(agents.len(), 441);
    for (k, (uid, agent)) in agents.iter().enumerate() {
        assert_eq!(*uid, k);
        assert_eq!(agent.fast_period(), 10 + (k / 21) as u16);
        assert_eq!(agent.slow_period(), 40 + (k % 21) as u16);
        assert_eq!(agent.trade_counter(), 0);
    }
}

#[test]
fn demo_grid_drops_pairs_that_do_not_cross() {
    let grid = DemoAgentGrid { fast_period: vec![5, 10, 15], slow_period: vec![8, 12, 3] };
    let pairs: Vec<(usize, u16, u16)> =
        grid.build().iter().map(|(uid, a)| (*uid, a.fast_period(), a.slow_period())).collect();
    assert_eq!(pairs, vec![(0, 5, 8), (1, 5, 12), (2, 10, 12)]);
    let empty = DemoAgentGrid { fast_period: vec![], slow_period: vec![1, 2] };
    assert!(empty.build().is_empty());
}

#[test]
fn breakout_enters_pyramids_and_cools_down() {
    let mut a = BreakoutAgent::new(20);
    assert_eq!(a.volmalen(), 20);
    assert!(a.decide(None, &vec![]).is_empty());
    assert_eq!(a.decide(Some(Direction::Short), &vec![]), vec![Command::Open { trade_id: 1, direction: Direction::Short }]);
    // Same direction as the first open trade: pyramid.
    assert_eq!(
        a.decide(Some(Direction::Short), &vec![short(1)]),
        vec![Command::Open { trade_id: 2, direction: Direction::Short }]
    );
    // Counter signal: close all, open nothing.
    assert_eq!(
        a.decide(Some(Direction::Long), &vec![short(1), short(2)]),
        vec![Command::MarketClose { trade_id: 1 }, Command::MarketClose { trade_id: 2 }]
    );
    assert_eq!(a.trade_counter(), 2);
    // The first open trade decides the side (no bar observed, so no cool-down bar).
    assert_eq!(
        a.decide(Some(Direction::Long), &vec![long(7), short(8)]),
        vec![Command::Open { trade_id: 3, direction: Direction::Long }]
    );
    a.reset();
    assert_eq!((a.trade_counter(), a.volmalen()), (0, 20));
}

#[test]
fn breakout_cools_down_for_the_rest_of_the_bar() {
    let mut a = BreakoutAgent::new(20);
    assert!(a.observe_bar(at(86_400)));
    assert_eq!(a.decide(Some(Direction::Long), &vec![]), vec![Command::Open { trade_id: 1, direction: Direction::Long }]);
    assert!(a.observe_bar(at(2 * 86_400)));
    // Counter signal on the second bar: close, open nothing.
    assert_eq!(a.decide(Some(Direction::Short), &vec![long(1)]), vec![Command::MarketClose { trade_id: 1 }]);
    // Called again on the same bar, now flat: the bar is ignored for entry.
    assert!(!a.observe_bar(at(2 * 86_400)));
    assert!(a.decide(Some(Direction::Short), &vec![]).is_empty());
    assert!(a.decide(Some(Direction::Long), &vec![]).is_empty());
    // Counter signals are still closed on the cool-down bar.
    assert_eq!(a.decide(Some(Direction::Short), &vec![long(1)]), vec![Command::MarketClose { trade_id: 1 }]);
    assert_eq!(a.trade_counter(), 1);
    // The next bar trades again.
    assert!(a.observe_bar(at(3 * 86_400)));
    assert_eq!(a.decide(Some(Direction::Short), &vec![]), vec![Command::Open { trade_id: 2, direction: Direction::Short }]);
    // A reset forgets the cool-down bar.
    assert!(a.observe_bar(at(4 * 86_400)));
    assert_eq!(a.decide(Some(Direction::Long), &vec![short(2)]), vec![Command::MarketClose { trade_id: 2 }]);
    a.reset();
    assert!(a.observe_bar(at(4 * 86_400)));
    assert_eq!(a.decide(Some(Direction::Long), &vec![]), vec![Command::Open { trade_id: 1, direction: Direction::Long }]);
}

#[test]
fn breakout_observes_each_bar_once() {
    let mut a = BreakoutAgent::new(10);
    assert!(a.observe_bar(at(86_400)));
    assert!(!a.observe_bar(at(86_400)));
    assert!(a.observe_bar(at(2 * 86_400)));
}

#[test]
fn breakout_grid_walks_axes_as_nested_loops() {
    let grid = BreakoutAgentGrid::baseline(2, 3, 1, 2);
    let points = grid.build();
    assert_eq!(points.len(), 12);
    let mut expected = Vec::new();
    for a in 0..2 {
        for b in 0..3 {
            for c in 0..1 {
                for d in 0..2 {
                    expected.push((a, b, c, d));
                }
            }
        }
    }
    for (k, (uid, digits)) in points.iter().enumerate() {
        assert_eq!(*uid, k);
        assert_eq!(*digits, expected[k]);
    }
    assert!(BreakoutAgentGrid::baseline(3, 0, 2, 2).build().is_empty());
}

#[test]
fn template_defaults() {
    let a = TemplateAgent::new();
    assert_eq!(a.max_holding_minutes(), 30);
    assert_eq!(a.state(), AgentState::PreTrade);
    assert_eq!(a.trade_counter(), 0);
    assert_eq!(TemplateAgent::default().max_holding_minutes(), 30);
    assert_eq!(AgentState::default(), AgentState::PreTrade);
    assert_eq!(TemplateAgent::new().with_max_holding_minutes(90).max_holding_minutes(), 90);
}

#[test]
fn template_exit_rule_formula() {
    let a = TemplateAgent::new().with_max_holding_minutes(60);
    assert_eq!(a.exit_decision(59), ExitDecision::Hold);
    assert_eq!(a.exit_decision(60), ExitDecision::Hold);
    assert_eq!(a.exit_decision(61), ExitDecision::Close);
    assert_eq!(a.entry_signal(), EntrySignal::Stay);
}

#[test]
fn template_waits_without_a_bar() {
    let mut a = TemplateAgent::new();
    assert!(a.act(None, at(0), Some(4)).is_empty());
    assert_eq!(a.state(), AgentState::PreTrade);
}

#[test]
fn template_as_shipped_never_trades() {
    let mut a = TemplateAgent::new();
    for i in 0..5 {
        assert!(a.act(Some(at(i * 14_400)), at(i * 14_400), None).is_empty());
        assert_eq!(a.state(), AgentState::PreTrade);
    }
    assert_eq!(a.trade_counter(), 0);
}

#[test]
fn template_round_trip_and_rearm() {
    let mut a = TemplateAgent::new().with_max_holding_minutes(30);
    let t0 = at(1_000_000);
    let open = a.step(EntrySignal::Enter(Direction::Short), t0, None);
    assert_eq!(open, vec![Command::Open { trade_id: 1, direction: Direction::Short }]);
    assert_eq!(a.state(), AgentState::InTrade { entry_time: t0 });
    // Held 30 minutes, the limit: keep.
    assert!(a.act(Some(at(1_000_000)), at(1_000_000 + 30 * 60 + 59), Some(1)).is_empty());
    assert_eq!(a.state(), AgentState::InTrade { entry_time: t0 });
    // Held 31 minutes, longer than the limit: close.
    let close = a.act(Some(at(1_000_000 + 14_400)), at(1_000_000 + 31 * 60), Some(1));
    assert_eq!(close, vec![Command::MarketClose { trade_id: 1 }]);
    assert_eq!(a.state(), AgentState::PostTrade);
    // After the trade: back to looking for an entry, without orders.
    assert!(a.act(Some(at(1_000_000 + 2 * 14_400)), at(1_000_000 + 2 * 14_400), None).is_empty());
    assert_eq!(a.state(), AgentState::PreTrade);
    let again = a.step(EntrySignal::Enter(Direction::Long), t0, None);
    assert_eq!(again, vec![Command::Open { trade_id: 2, direction: Direction::Long }]);
}

#[test]
fn template_follows_the_engine_when_the_trade_is_gone() {
    let mut a = TemplateAgent::new().with_max_holding_minutes(10_000);
    a.step(EntrySignal::Enter(Direction::Long), at(0), None);
    assert!(a.step(EntrySignal::Stay, at(60), None).is_empty());
    assert_eq!(a.state(), AgentState::PostTrade);
    a.reset();
    assert_eq!(a.state(), AgentState::PreTrade);
    assert_eq!((a.trade_counter(), a.max_holding_minutes()), (0, 10_000));
}

#[test]
fn template_grid_baseline() {
    let grid = TemplateAgentGrid::baseline(3);
    assert_eq!(grid.max_holding_minutes_grid, vec![30, 60, 90, 120, 150, 180, 210, 240]);
    let agents = grid.build();
    assert_eq!(agents.len(), 24);
    for (k, (uid, agent, size_index)) in agents.iter().enumerate() {
        assert_eq!(*uid, k);
        assert_eq!(agent.max_holding_minutes(), 30 * (k as i64 / 3 + 1));
        assert_eq!(*size_index, k % 3);
        assert_eq!(agent.state(), AgentState::PreTrade);
    }
    assert!(TemplateAgentGrid::baseline(0).build().is_empty());
}

#[test]
fn template2_waits_after_its_trade() {
    let mut a = template2::TemplateAgent::new();
    assert_eq!(a.param_i32(), 1);
    assert!(!a.entry_signal());
    let t0 = at(500);
    let open = a.step(true, t0, None);
    assert_eq!(open, vec![Command::Open { trade_id: 1, direction: Direction::Long }]);
    assert!(a.act(Some(at(0)), at(500 + 29 * 60), Some(1)).is_empty());
    let close = a.act(Some(at(1)), at(500 + 30 * 60), Some(1));
    assert_eq!(close, vec![Command::MarketClose { trade_id: 1 }]);
    assert_eq!(a.state(), AgentState::PostTrade);
    for i in 2..6 {
        assert!(a.act(Some(at(i)), at(10_000 * i), None).is_empty());
        assert_eq!(a.state(), AgentState::PostTrade);
    }
    a.reset();
    assert_eq!(a.state(), AgentState::PreTrade);
}

#[test]
fn template2_grid_baseline() {
    let grid = template2::TemplateAgentGrid::baseline(2);
    assert_eq!(grid.i32_grid, (-5..5).collect::<Vec<i32>>());
    let agents = grid.build();
    assert_eq!(agents.len(), 20);
    for (k, (uid, agent, f_index)) in agents.iter().enumerate() {
        assert_eq!(*uid, k);
        assert_eq!(agent.param_i32(), -5 + (k / 2) as i32);
        assert_eq!(*f_index, k % 2);
    }
    assert_eq!(template2::TemplateAgent::new().with_param_i32(-3).param_i32(), -3);
}
