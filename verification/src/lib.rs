//! A backtesting engine for a cross-sectional momentum and relative-strength
//! strategy over daily price series, with position-sizing playbooks.
//!
//! Data flows forward: price series are aligned on a shared calendar,
//! indicators are computed over the aligned series, signals over the
//! indicators, the portfolio is simulated from the signals, statistics are
//! taken from the simulation, and playbooks are built from the statistics.
//!
//! All arithmetic is fixed-point arithmetic on integers, rounded down and
//! saturating; see [`fixed`]. Every function is verified against a contract
//! that states its result over these integers. The few calls into other
//! crates stand behind small functions whose contracts are believed, not
//! proved; each of them says so.
//!
//! The engine:
//! - [`series`] and [`calendar`]: price series and their shared calendar;
//! - [`indicators`]: rolling mean, deviation and average true range;
//! - [`signals`]: the signals of an asset, day by day;
//! - [`portfolio`]: the simulated portfolio and its equity curve;
//! - [`stats`], [`analyzer`], [`ranking`]: statistics and rankings;
//! - [`trade`], [`playbook`], [`report`]: sizing, plans and reports;
//! - [`backtest`]: one run from series to statistics.
//!
//! Around the engine:
//! - [`config`]: arguments and their defaults;
//! - [`dates`], [`urls`], [`ohlc`], [`schedule`]: the decisions of the export
//!   of market data and of the daemon;
//! - [`insights`], [`prompts`], [`completion`]: narrative insights, the
//!   questions that ask for them, and their fallback;
//! - [`text`], [`names`], [`export`], [`deploy`]: texts, file names and the
//!   records of tables.

pub mod fixed;
pub mod indicators;
pub mod series;
pub mod calendar;
pub mod signals;
pub mod portfolio;
pub mod stats;
pub mod analyzer;
pub mod ranking;
pub mod trade;
pub mod text;
pub mod playbook;
pub mod insights;
pub mod backtest;
pub mod dates;
pub mod urls;
pub mod ohlc;
pub mod schedule;
pub mod names;
pub mod config;
pub mod export;
pub mod report;
pub mod deploy;
pub mod completion;
pub mod prompts;
