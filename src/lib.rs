//! Cost estimation for FDM 3D-printing jobs.
//!
//! The library holds a fixed brand and material price table, the state of one
//! pricing session (the filaments of a job and the machine and operating
//! parameters), and the computation that derives a job's total cost and a
//! suggested sale price from that state.
//!
//! All quantities are exact integers. An input quantity is a count of
//! thousandths of its natural unit: a weight in milligrams, a price in
//! thousandths of a currency unit, a time in thousandths of an hour, a power in
//! milliwatts, a markup in thousandths of a percent. Every cost that the
//! session derives is a count of `10^-12` currency units, so that the formulas
//! are carried out without rounding but where a division is unavoidable.
use vstd::prelude::*;

pub mod filament_prices;
pub mod logic;
pub mod pricing;

verus! {

} // verus!
