//! Chapter progression, scenario data and the decision logic of an
//! insurance actuarial learning simulation.
//!
//! The money side of the simulation works in floating point and lives with
//! the terminal front end. This crate holds everything that decides: which
//! chapters exist and which are unlocked, what each scenario is made of,
//! which perils strike which policy in a simulated year, how the screens
//! react to keys, when a chapter counts as passed, and how money is written
//! out.

pub mod app;
pub mod engine;
pub mod number;
pub mod progress;
pub mod scenarios;
pub mod strings;
pub mod ui;
