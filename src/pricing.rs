//! The cost formulas of a print job.
//!
//! Inputs are in thousandths of their units (see the crate documentation);
//! every cost is a count of `10^-12` currency units.
use vstd::prelude::*;
use crate::logic::{FilamentPricing, FilamentUsage, MAX_QUANTITY};

verus! {

/// Surcharge on carbon-based filament and cost of purged filament: ten currency
/// units per kilogram, which is this many `10^-12` units per milligram.
pub const PER_MILLIGRAM_SURCHARGE: u128 = 10_000_000;

/// Wear of the printer per thousandth of an hour of printing (a twentieth of a
/// currency unit per hour).
pub const WEAR_PER_MILLIHOUR: u128 = 50_000_000;

/// Wear of the printer per milligram of purged filament (a hundredth of a
/// currency unit per gram).
pub const PURGE_WEAR_PER_MILLIGRAM: u128 = 10_000_000;

/// Markups are in thousandths of a percent: this is one hundred percent.
pub const FULL_PRICE_MILLIPERCENT: u128 = 100_000;

/// Material cost of `weight` milligrams at `price` thousandths per kilogram.
pub open spec fn per_kilogram_cost(price: int, weight: int) -> int {
    price * weight * 1000
}

/// Material cost of `weight` milligrams from a roll of `roll_weight`
/// milligrams that costs `price` thousandths, rounded down.
pub open spec fn per_roll_cost(price: int, weight: int, roll_weight: int) -> int {
    price * weight * 1_000_000_000 / roll_weight
}

/// The surcharge on `weight` milligrams of carbon-based filament.
pub open spec fn carbon_surcharge(weight: int) -> int {
    weight * PER_MILLIGRAM_SURCHARGE
}

/// The material cost of one filament, with its surcharge where it is carbon-based.
pub open spec fn spec_filament_cost(f: FilamentUsage) -> int {
    let base = match f.pricing {
        FilamentPricing::PerKilogram { price } => per_kilogram_cost(price as int, f.weight as int),
        FilamentPricing::PerRoll { price, roll_weight } =>
            per_roll_cost(price as int, f.weight as int, roll_weight as int),
    };
    if f.is_carbon_based {
        base + carbon_surcharge(f.weight as int)
    } else {
        base
    }
}

/// The material cost of all of `filaments`.
pub open spec fn spec_filaments_cost(filaments: Seq<FilamentUsage>) -> int
    decreases filaments.len(),
{
    if filaments.len() == 0 {
        0
    } else {
        spec_filaments_cost(filaments.drop_last()) + spec_filament_cost(filaments.last())
    }
}

/// The cost of `purge` milligrams of purged filament.
pub open spec fn spec_purge_cost(purge: int) -> int {
    purge * PER_MILLIGRAM_SURCHARGE
}

/// Energy drawn by `wattage` milliwatts over `hours` thousandths of an hour,
/// at `rate` thousandths per kilowatt-hour.
pub open spec fn spec_electricity_cost(wattage: int, hours: int, rate: int) -> int {
    wattage * hours * rate
}

/// Wear of the printer over `hours` thousandths of an hour, with `purge`
/// milligrams of purged filament.
pub open spec fn spec_wear_and_tear_cost(hours: int, purge: int) -> int {
    hours * WEAR_PER_MILLIHOUR + purge * PURGE_WEAR_PER_MILLIGRAM
}

/// `hours` thousandths of an hour charged at `rate` thousandths per hour.
pub open spec fn spec_hourly_cost(rate: int, hours: int) -> int {
    rate * hours * 1_000_000
}

/// An amount given in thousandths of a currency unit.
pub open spec fn spec_flat_cost(amount: int) -> int {
    amount * 1_000_000_000
}

/// `total` raised by `markup` thousandths of a percent, rounded down.
pub open spec fn spec_marked_up(total: int, markup: int) -> int {
    total * (FULL_PRICE_MILLIPERCENT + markup) / FULL_PRICE_MILLIPERCENT as int
}

/// A bound on the material cost of one filament within the limits.
pub open spec fn filament_cost_bound() -> int {
    2_000_000_000_000_000_000_000_000_000
}

pub proof fn lemma_filament_cost_bound(f: FilamentUsage)
    requires
        f.within_limits(),
    ensures
        0 <= spec_filament_cost(f) <= filament_cost_bound(),
{
    let w = f.weight as int;
    assert(0 <= w * PER_MILLIGRAM_SURCHARGE <= 10_000_000_000_000_000) by (nonlinear_arith)
        requires 0 <= w <= MAX_QUANTITY;
    match f.pricing {
        FilamentPricing::PerKilogram { price } => {
            let p = price as int;
            assert(0 <= p * w * 1000 <= 1_000_000_000_000_000_000_000) by (nonlinear_arith)
                requires 0 <= p <= MAX_QUANTITY, 0 <= w <= MAX_QUANTITY;
        },
        FilamentPricing::PerRoll { price, roll_weight } => {
            let p = price as int;
            let n = p * w * 1_000_000_000;
            assert(0 <= n <= 1_000_000_000_000_000_000_000_000_000) by (nonlinear_arith)
                requires 0 <= p <= MAX_QUANTITY, 0 <= w <= MAX_QUANTITY, n == p * w * 1_000_000_000;
            assert(0 <= n / roll_weight as int <= n) by (nonlinear_arith)
                requires 0 <= n, roll_weight >= 1;
        },
    }
}

pub proof fn lemma_filaments_cost_bound(filaments: Seq<FilamentUsage>)
    requires
        forall|i: int| 0 <= i < filaments.len() ==> #[trigger] filaments[i].within_limits(),
    ensures
        0 <= spec_filaments_cost(filaments) <= filaments.len() * filament_cost_bound(),
    decreases filaments.len(),
{
    if filaments.len() > 0 {
        let rest = filaments.drop_last();
        assert forall|i: int| 0 <= i < rest.len() implies #[trigger] rest[i].within_limits() by {
            assert(rest[i] == filaments[i]);
        }
        lemma_filaments_cost_bound(rest);
        lemma_filament_cost_bound(filaments.last());
        assert(rest.len() * filament_cost_bound() + filament_cost_bound()
            == filaments.len() * filament_cost_bound()) by (nonlinear_arith)
            requires rest.len() + 1 == filaments.len();
    }
}

/// The material cost at a price per kilogram never falls when the price or the
/// weight grows.
pub proof fn lemma_per_kilogram_cost_monotone(price1: int, price2: int, weight1: int, weight2: int)
    requires
        0 <= price1 <= price2,
        0 <= weight1 <= weight2,
    ensures
        per_kilogram_cost(price1, weight1) <= per_kilogram_cost(price2, weight2),
{
    assert(price1 * weight1 <= price2 * weight2) by (nonlinear_arith)
        requires 0 <= price1 <= price2, 0 <= weight1 <= weight2;
}

/// The material cost from a roll never falls when the roll's price or the
/// weight used grows.
pub proof fn lemma_per_roll_cost_monotone(price1: int, price2: int, weight1: int, weight2: int, roll_weight: int)
    requires
        0 <= price1 <= price2,
        0 <= weight1 <= weight2,
        0 < roll_weight,
    ensures
        per_roll_cost(price1, weight1, roll_weight) <= per_roll_cost(price2, weight2, roll_weight),
{
    let a = price1 * weight1 * 1_000_000_000;
    let b = price2 * weight2 * 1_000_000_000;
    assert(a <= b) by (nonlinear_arith)
        requires
            0 <= price1 <= price2,
            0 <= weight1 <= weight2,
            a == price1 * weight1 * 1_000_000_000,
            b == price2 * weight2 * 1_000_000_000;
    vstd::arithmetic::div_mod::lemma_div_is_ordered(a, b, roll_weight);
}

/// A carbon-based filament costs exactly ten currency units per kilogram of
/// its weight more than the same filament without carbon.
pub proof fn lemma_carbon_surcharge(filament: FilamentUsage)
    ensures
        spec_filament_cost(FilamentUsage { is_carbon_based: true, ..filament })
            == spec_filament_cost(FilamentUsage { is_carbon_based: false, ..filament })
                + filament.weight * PER_MILLIGRAM_SURCHARGE,
{
}

/// The material cost of `filament`, carbon surcharge included.
pub fn filament_cost(filament: &FilamentUsage) -> (r: u128)
    requires
        filament.within_limits(),
    ensures
        r == spec_filament_cost(*filament),
{
    proof {
        lemma_filament_cost_bound(*filament);
    }
    let w = filament.weight as u128;
    let base: u128 = match filament.pricing {
        FilamentPricing::PerKilogram { price } => {
            let p = price as u128;
            assert(p * w <= 1_000_000_000_000_000_000) by (nonlinear_arith)
                requires p <= MAX_QUANTITY, w <= MAX_QUANTITY;
            p * w * 1000
        },
        FilamentPricing::PerRoll { price, roll_weight } => {
            let p = price as u128;
            assert(p * w <= 1_000_000_000_000_000_000) by (nonlinear_arith)
                requires p <= MAX_QUANTITY, w <= MAX_QUANTITY;
            p * w * 1_000_000_000 / (roll_weight as u128)
        },
    };
    if filament.is_carbon_based {
        base + w * PER_MILLIGRAM_SURCHARGE
    } else {
        base
    }
}

/// The cost of `purge` milligrams of purged filament.
pub fn purge_cost(purge: u64) -> (r: u128)
    ensures
        r == spec_purge_cost(purge as int),
{
    purge as u128 * PER_MILLIGRAM_SURCHARGE
}

/// The cost of the energy that the printer draws during the print.
pub fn electricity_cost(wattage: u64, hours: u64, rate: u64) -> (r: u128)
    requires
        wattage <= MAX_QUANTITY,
        hours <= MAX_QUANTITY,
        rate <= MAX_QUANTITY,
    ensures
        r == spec_electricity_cost(wattage as int, hours as int, rate as int),
{
    let (w, h, c) = (wattage as u128, hours as u128, rate as u128);
    assert(w * h <= 1_000_000_000_000_000_000) by (nonlinear_arith)
        requires w <= MAX_QUANTITY, h <= MAX_QUANTITY;
    assert(w * h * c <= 1_000_000_000_000_000_000_000_000_000) by (nonlinear_arith)
        requires w * h <= 1_000_000_000_000_000_000, c <= MAX_QUANTITY;
    w * h * c
}

/// The wear of the printer during the print.
pub fn wear_and_tear_cost(hours: u64, purge: u64) -> (r: u128)
    ensures
        r == spec_wear_and_tear_cost(hours as int, purge as int),
{
    hours as u128 * WEAR_PER_MILLIHOUR + purge as u128 * PURGE_WEAR_PER_MILLIGRAM
}

/// The operator's charge for the print time.
pub fn hourly_cost(rate: u64, hours: u64) -> (r: u128)
    requires
        rate <= MAX_QUANTITY,
        hours <= MAX_QUANTITY,
    ensures
        r == spec_hourly_cost(rate as int, hours as int),
{
    let (c, h) = (rate as u128, hours as u128);
    assert(c * h <= 1_000_000_000_000_000_000) by (nonlinear_arith)
        requires c <= MAX_QUANTITY, h <= MAX_QUANTITY;
    c * h * 1_000_000
}

/// An amount in thousandths of a currency unit, as a cost.
pub fn flat_cost(amount: u64) -> (r: u128)
    ensures
        r == spec_flat_cost(amount as int),
{
    amount as u128 * 1_000_000_000
}

/// `total` raised by `markup` thousandths of a percent.
pub fn marked_up(total: u128, markup: u64) -> (r: u128)
    requires
        total * (FULL_PRICE_MILLIPERCENT + markup) <= u128::MAX,
    ensures
        r == spec_marked_up(total as int, markup as int),
{
    total * (FULL_PRICE_MILLIPERCENT + markup as u128) / FULL_PRICE_MILLIPERCENT
}

} // verus!
