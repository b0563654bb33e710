//! Minimum-mass fertilizer recipes.
//!
//! A recipe says how much of each salt to dissolve so that the solution holds
//! every nutrient within its target range, with the nitrogen split between
//! ammonium and nitrate as asked, and with as little salt as possible.
//!
//! * [`models`], [`data`] and [`catalog`] hold the salts: what a salt is, the
//!   built-in ones, and the catalog of a session with its stock solutions
//!   ([`solutions`]).
//! * [`targets`] holds what a recipe is asked to reach.
//! * [`program`] turns targets and salts into a linear program, and
//!   [`optimizer`] drives an optimization: it hands out the program to be
//!   solved and reads the recipe from the solution. The solver itself is not
//!   part of this library. [`feasibility`] proves that the program asks what
//!   the targets ask.
//! * [`compatibility`] warns of salts that must not share a stock solution.
//! * [`ledger`] keeps the results of a session, and [`table`] and [`format`]
//!   lay them out.
//!
//! Numbers are fixed-point integers throughout; see [`units`] for what they
//! count, [`decimal`] for how they are read from text, and [`format`] for
//! how they are written.
pub mod catalog;
pub mod compatibility;
pub mod data;
pub mod decimal;
pub mod feasibility;
pub mod format;
pub mod ledger;
pub mod models;
pub mod optimizer;
pub mod program;
pub mod sequences;
pub mod solutions;
pub mod table;
pub mod targets;
pub mod text;
pub mod units;
