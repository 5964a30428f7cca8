//! Verified decision logic of the chapaty trading agents and their runner:
//! the per-bar state machines, the parameter grids, and the runner's small
//! computations (grid subset, leaderboard size, report and crash-log paths).
//! The backtest engine, the floating-point indicators and all I/O stay with
//! the program that drives this library.

pub mod time;
pub mod text;
pub mod trading;
pub mod demo;
pub mod grid;
pub mod template;
pub mod template2;
pub mod breakout;
pub mod crash;
pub mod runner;
