//! The pricing session: its filaments, its parameters and the currency label.
use vstd::prelude::*;
use crate::filament_prices::{catalog_price, get_filament_prices, standard_table, PriceCatalog};
use crate::pricing::{
    electricity_cost, filament_cost, filament_cost_bound, flat_cost, hourly_cost,
    lemma_filament_cost_bound, lemma_filaments_cost_bound, marked_up, purge_cost,
    spec_electricity_cost, spec_filaments_cost, spec_flat_cost, spec_hourly_cost,
    spec_marked_up, spec_purge_cost, spec_wear_and_tear_cost, wear_and_tear_cost,
    FULL_PRICE_MILLIPERCENT,
};

verus! {

/// The largest value, in thousandths of its unit, that a quantity may take
/// for the session's costs to be computed: a million whole units.
pub const MAX_QUANTITY: u64 = 1_000_000_000;

/// The most filaments that a job may use.
pub const MAX_FILAMENTS: usize = 16;

/// How a filament's price is given.
#[derive(Clone, Copy, Debug, PartialEq, Eq, Structural)]
pub enum FilamentPricing {
    /// A price per kilogram, in thousandths of a currency unit.
    PerKilogram { price: u64 },
    /// The price of a whole roll, in thousandths of a currency unit, and the
    /// weight of filament on the roll, in milligrams.
    PerRoll { price: u64, roll_weight: u64 },
}

impl FilamentPricing {
    /// Every price is at most `MAX_QUANTITY` and a roll weighs something.
    pub open spec fn within_limits(self) -> bool {
        match self {
            FilamentPricing::PerKilogram { price } => price <= MAX_QUANTITY,
            FilamentPricing::PerRoll { price, roll_weight } =>
                price <= MAX_QUANTITY && 0 < roll_weight <= MAX_QUANTITY,
        }
    }
}

/// One filament that a job consumes.
pub struct FilamentUsage {
    /// The brand, or "Custom" for a filament that the catalog does not price.
    pub brand: String,
    /// The material, or "Custom" likewise.
    pub material: String,
    /// Filament extruded into the part, in milligrams.
    pub weight: u64,
    pub pricing: FilamentPricing,
    /// A carbon or glass reinforced filament, which carries a surcharge.
    pub is_carbon_based: bool,
}

impl FilamentUsage {
    /// A filament as a new slot holds it: "Custom", no weight, no price.
    pub open spec fn is_fresh(&self) -> bool {
        &&& self.brand@ == "Custom"@
        &&& self.material@ == "Custom"@
        &&& self.weight == 0
        &&& self.pricing == FilamentPricing::PerKilogram { price: 0 }
        &&& !self.is_carbon_based
    }

    /// The weight and the pricing are small enough for the cost to be computed.
    pub open spec fn within_limits(&self) -> bool {
        self.weight <= MAX_QUANTITY && self.pricing.within_limits()
    }

    /// Picks `brand` for this filament. Picking "Custom" also resets the
    /// material to "Custom" and the price to zero per kilogram.
    pub fn select_brand(&mut self, brand: &str)
        ensures
            final(self).brand@ == brand@,
            final(self).weight == old(self).weight,
            final(self).is_carbon_based == old(self).is_carbon_based,
            brand@ == "Custom"@ ==> final(self).material@ == "Custom"@
                && final(self).pricing == (FilamentPricing::PerKilogram { price: 0 }),
            brand@ != "Custom"@ ==> final(self).material == old(self).material
                && final(self).pricing == old(self).pricing,
    {
        let custom = "Custom".to_string();
        self.brand = brand.to_string();
        if self.brand == custom {
            self.material = custom;
            self.pricing = FilamentPricing::PerKilogram { price: 0 };
        }
    }

    /// Picks `material` for this filament and, where `catalog` prices it for
    /// the filament's brand, takes that price per kilogram. Where it does not,
    /// the price stays as it was.
    pub fn select_material(&mut self, catalog: &PriceCatalog, material: &str)
        ensures
            final(self).material@ == material@,
            final(self).brand == old(self).brand,
            final(self).weight == old(self).weight,
            final(self).is_carbon_based == old(self).is_carbon_based,
            final(self).pricing == match catalog_price(catalog@, old(self).brand@, material@) {
                Some(price) => FilamentPricing::PerKilogram { price },
                None => old(self).pricing,
            },
    {
        self.material = material.to_string();
        match catalog.lookup_price(self.brand.as_str(), material) {
            Some(price) => {
                self.pricing = FilamentPricing::PerKilogram { price };
            },
            None => {},
        }
    }

    /// A new slot: "Custom" brand and material, no weight, no price.
    pub fn custom() -> (r: FilamentUsage)
        ensures
            r.is_fresh(),
    {
        FilamentUsage {
            brand: "Custom".to_string(),
            material: "Custom".to_string(),
            weight: 0,
            pricing: FilamentPricing::PerKilogram { price: 0 },
            is_carbon_based: false,
        }
    }
}

/// The currency whose symbol labels the amounts. Switching it changes no amount.
#[derive(Clone, Copy, Debug, PartialEq, Eq, Structural)]
pub enum Currency {
    USD,
    EUR,
    GBP,
}

impl Currency {
    /// The currency that follows this one in the cycle USD, EUR, GBP.
    pub open spec fn next(self) -> Currency {
        match self {
            Currency::USD => Currency::EUR,
            Currency::EUR => Currency::GBP,
            Currency::GBP => Currency::USD,
        }
    }

    /// The symbol shown beside amounts in this currency.
    pub open spec fn symbol(self) -> Seq<char> {
        match self {
            Currency::USD => "$"@,
            Currency::EUR => "€"@,
            Currency::GBP => "£"@,
        }
    }
}

/// Three switches bring the label back to where it started, through each
/// other currency once.
pub proof fn lemma_currency_cycle(c: Currency)
    ensures
        c.next().next().next() == c,
        c.next() != c,
        c.next().next() != c,
        Currency::USD.next() == Currency::EUR,
        Currency::EUR.next() == Currency::GBP,
        Currency::GBP.next() == Currency::USD,
{
}

/// A pricing session: the filaments of one job, the machine and operating
/// parameters, and the costs derived from them by the last `calculate_costs`.
///
/// Inputs are in thousandths of their units; derived costs are counts of
/// `10^-12` currency units.
pub struct CalculatorLogic {
    pub currency: Currency,
    pub filament_prices: PriceCatalog,
    pub filaments: Vec<FilamentUsage>,
    /// Filament purged or wasted, in milligrams.
    pub purge_waste_weight: u64,
    /// Thousandths of a currency unit per kilowatt-hour.
    pub electricity_rate: u64,
    /// Milliwatts.
    pub printer_wattage: u64,
    /// Thousandths of an hour.
    pub print_time: u64,
    /// Thousandths of a currency unit per hour of printing.
    pub hourly_charge: u64,
    /// Thousandths of a currency unit.
    pub shipping_cost: u64,
    /// Thousandths of a percent.
    pub markup_percentage: u64,
    pub wear_and_tear_cost: u128,
    pub total_cost: u128,
    pub suggested_price: u128,
    pub suggested_price_with_post_processing: u128,
    /// Thousandths of an hour.
    pub post_processing_hours: u64,
    /// Thousandths of a currency unit per hour.
    pub post_processing_rate: u64,
}

impl Default for CalculatorLogic {
    /// A session in euros with the standard price table, one "Custom"
    /// filament, a 250 W printer, electricity at 260 thousandths per kWh, an
    /// hourly charge of 2500 thousandths, a markup of twenty percent,
    /// post-processing at 15000 thousandths per hour, and nothing computed yet.
    fn default() -> (r: CalculatorLogic)
        ensures
            r.currency == Currency::EUR,
            r.filament_prices@ == standard_table(),
            r.filaments@.len() == 1,
            r.filaments@[0].is_fresh(),
            r.purge_waste_weight == 0,
            r.electricity_rate == 260,
            r.printer_wattage == 250_000,
            r.print_time == 0,
            r.hourly_charge == 2_500,
            r.shipping_cost == 0,
            r.markup_percentage == 20_000,
            r.wear_and_tear_cost == 0,
            r.total_cost == 0,
            r.suggested_price == 0,
            r.suggested_price_with_post_processing == 0,
            r.post_processing_hours == 0,
            r.post_processing_rate == 15_000,
    {
        CalculatorLogic {
            currency: Currency::EUR,
            filament_prices: get_filament_prices(),
            filaments: vec![FilamentUsage::custom()],
            purge_waste_weight: 0,
            electricity_rate: 260,
            printer_wattage: 250_000,
            print_time: 0,
            hourly_charge: 2_500,
            shipping_cost: 0,
            markup_percentage: 20_000,
            wear_and_tear_cost: 0,
            total_cost: 0,
            suggested_price: 0,
            suggested_price_with_post_processing: 0,
            post_processing_hours: 0,
            post_processing_rate: 15_000,
        }
    }
}

impl CalculatorLogic {
    /// The inputs are small enough for the costs to be computed: at most
    /// `MAX_FILAMENTS` filaments, each within its limits, and every other
    /// quantity at most `MAX_QUANTITY`.
    pub open spec fn within_limits(&self) -> bool {
        &&& self.filaments@.len() <= MAX_FILAMENTS
        &&& forall|i: int| 0 <= i < self.filaments@.len() ==> #[trigger] self.filaments@[i].within_limits()
        &&& self.purge_waste_weight <= MAX_QUANTITY
        &&& self.electricity_rate <= MAX_QUANTITY
        &&& self.printer_wattage <= MAX_QUANTITY
        &&& self.print_time <= MAX_QUANTITY
        &&& self.hourly_charge <= MAX_QUANTITY
        &&& self.shipping_cost <= MAX_QUANTITY
        &&& self.markup_percentage <= MAX_QUANTITY
        &&& self.post_processing_hours <= MAX_QUANTITY
        &&& self.post_processing_rate <= MAX_QUANTITY
    }

    /// Material of all filaments plus purged filament.
    pub open spec fn material_cost(&self) -> int {
        spec_filaments_cost(self.filaments@) + spec_purge_cost(self.purge_waste_weight as int)
    }

    pub open spec fn spec_total_cost(&self) -> int {
        self.material_cost()
            + spec_electricity_cost(self.printer_wattage as int, self.print_time as int, self.electricity_rate as int)
            + spec_wear_and_tear_cost(self.print_time as int, self.purge_waste_weight as int)
            + spec_hourly_cost(self.hourly_charge as int, self.print_time as int)
            + spec_flat_cost(self.shipping_cost as int)
    }

    pub open spec fn spec_suggested_price(&self) -> int {
        spec_marked_up(self.spec_total_cost(), self.markup_percentage as int)
    }

    /// Post-processing is left out of the total cost and added to the
    /// suggested price alone.
    pub open spec fn spec_suggested_price_with_post_processing(&self) -> int {
        self.spec_suggested_price()
            + spec_hourly_cost(self.post_processing_rate as int, self.post_processing_hours as int)
    }

    /// The session with every derived cost recomputed from its inputs.
    pub open spec fn recomputed(self) -> CalculatorLogic {
        CalculatorLogic {
            wear_and_tear_cost: spec_wear_and_tear_cost(self.print_time as int, self.purge_waste_weight as int) as u128,
            total_cost: self.spec_total_cost() as u128,
            suggested_price: self.spec_suggested_price() as u128,
            suggested_price_with_post_processing: self.spec_suggested_price_with_post_processing() as u128,
            ..self
        }
    }

    /// Whether the inputs are small enough for `calculate_costs`.
    pub fn is_within_limits(&self) -> (r: bool)
        ensures
            r == self.within_limits(),
    {
        if self.filaments.len() > MAX_FILAMENTS {
            return false;
        }
        let mut i: usize = 0;
        while i < self.filaments.len()
            invariant
                i <= self.filaments@.len(),
                forall|j: int| 0 <= j < i ==> #[trigger] self.filaments@[j].within_limits(),
            decreases self.filaments@.len() - i,
        {
            let f = &self.filaments[i];
            let priced = match f.pricing {
                FilamentPricing::PerKilogram { price } => price <= MAX_QUANTITY,
                FilamentPricing::PerRoll { price, roll_weight } =>
                    price <= MAX_QUANTITY && 0 < roll_weight && roll_weight <= MAX_QUANTITY,
            };
            if !(f.weight <= MAX_QUANTITY && priced) {
                assert(!self.filaments@[i as int].within_limits());
                return false;
            }
            i = i + 1;
        }
        self.purge_waste_weight <= MAX_QUANTITY
            && self.electricity_rate <= MAX_QUANTITY
            && self.printer_wattage <= MAX_QUANTITY
            && self.print_time <= MAX_QUANTITY
            && self.hourly_charge <= MAX_QUANTITY
            && self.shipping_cost <= MAX_QUANTITY
            && self.markup_percentage <= MAX_QUANTITY
            && self.post_processing_hours <= MAX_QUANTITY
            && self.post_processing_rate <= MAX_QUANTITY
    }

    /// Resizes the list of filaments to `count`: a longer list keeps every
    /// entry and gains new "Custom" slots at its end; a shorter one keeps its
    /// first `count` entries.
    pub fn update_filament_count(&mut self, count: usize)
        ensures
            final(self).filaments@.len() == count,
            forall|i: int| 0 <= i < count && i < old(self).filaments@.len()
                ==> #[trigger] final(self).filaments@[i] == old(self).filaments@[i],
            forall|i: int| old(self).filaments@.len() <= i < count
                ==> #[trigger] final(self).filaments@[i].is_fresh(),
            *final(self) == (CalculatorLogic { filaments: final(self).filaments, ..*old(self) }),
    {
        if count > self.filaments.len() {
            let ghost before = self.filaments@;
            while self.filaments.len() < count
                invariant
                    before.len() <= self.filaments@.len() <= count,
                    forall|i: int| 0 <= i < before.len() ==> #[trigger] self.filaments@[i] == before[i],
                    forall|i: int| before.len() <= i < self.filaments@.len() ==> #[trigger] self.filaments@[i].is_fresh(),
                    *self == (CalculatorLogic { filaments: self.filaments, ..*old(self) }),
                decreases count - self.filaments@.len(),
            {
                self.filaments.push(FilamentUsage::custom());
            }
        } else {
            self.filaments.truncate(count);
        }
    }

    /// Switches between a single-filament job, which keeps only the first
    /// filament, and a multi-filament one, which has at least two.
    pub fn select_print_mode(&mut self, multi_color: bool)
        ensures
            !multi_color ==> final(self).filaments@.len() == 1,
            multi_color && old(self).filaments@.len() < 2 ==> final(self).filaments@.len() == 2,
            multi_color && old(self).filaments@.len() >= 2 ==> final(self).filaments@ == old(self).filaments@,
            forall|i: int| 0 <= i < final(self).filaments@.len() && i < old(self).filaments@.len()
                ==> #[trigger] final(self).filaments@[i] == old(self).filaments@[i],
            forall|i: int| old(self).filaments@.len() <= i < final(self).filaments@.len()
                ==> #[trigger] final(self).filaments@[i].is_fresh(),
            *final(self) == (CalculatorLogic { filaments: final(self).filaments, ..*old(self) }),
    {
        if !multi_color {
            self.update_filament_count(1);
        } else if self.filaments.len() < 2 {
            self.update_filament_count(2);
        }
    }

    /// Adds a new "Custom" slot at the end, unless the job already uses
    /// `MAX_FILAMENTS` filaments.
    pub fn add_filament(&mut self)
        ensures
            old(self).filaments@.len() < MAX_FILAMENTS ==> {
                &&& final(self).filaments@.len() == old(self).filaments@.len() + 1
                &&& final(self).filaments@.drop_last() == old(self).filaments@
                &&& final(self).filaments@.last().is_fresh()
            },
            old(self).filaments@.len() >= MAX_FILAMENTS ==> final(self).filaments@ == old(self).filaments@,
            *final(self) == (CalculatorLogic { filaments: final(self).filaments, ..*old(self) }),
    {
        if self.filaments.len() < MAX_FILAMENTS {
            self.filaments.push(FilamentUsage::custom());
            assert(self.filaments@.drop_last() =~= old(self).filaments@);
        }
    }

    /// Removes the filament at `index`; an index out of bounds changes nothing.
    pub fn remove_filament(&mut self, index: usize)
        ensures
            index < old(self).filaments@.len() ==> final(self).filaments@ == old(self).filaments@.remove(index as int),
            index >= old(self).filaments@.len() ==> final(self).filaments@ == old(self).filaments@,
            *final(self) == (CalculatorLogic { filaments: final(self).filaments, ..*old(self) }),
    {
        if index < self.filaments.len() {
            self.filaments.remove(index);
        }
    }

    /// Moves the currency label one step along USD, EUR, GBP; changes nothing else.
    pub fn switch_currency(&mut self)
        ensures
            *final(self) == (CalculatorLogic { currency: old(self).currency.next(), ..*old(self) }),
    {
        self.currency = match self.currency {
            Currency::USD => Currency::EUR,
            Currency::EUR => Currency::GBP,
            Currency::GBP => Currency::USD,
        };
    }

    /// The symbol of the session's currency: "$", "€" or "£".
    pub fn currency_symbol(&self) -> (r: &str)
        ensures
            r@ == self.currency.symbol(),
    {
        match self.currency {
            Currency::USD => "$",
            Currency::EUR => "€",
            Currency::GBP => "£",
        }
    }

    /// Recomputes every derived cost from the session's inputs; changes nothing else.
    pub fn calculate_costs(&mut self)
        requires
            old(self).within_limits(),
        ensures
            *final(self) == old(self).recomputed(),
            final(self).wear_and_tear_cost == spec_wear_and_tear_cost(old(self).print_time as int, old(self).purge_waste_weight as int),
            final(self).total_cost == old(self).spec_total_cost(),
            final(self).suggested_price == old(self).spec_suggested_price(),
            final(self).suggested_price_with_post_processing == old(self).spec_suggested_price_with_post_processing(),
    {
        proof {
            lemma_filaments_cost_bound(self.filaments@);
        }
        let mut filament_total: u128 = 0;
        let mut i: usize = 0;
        while i < self.filaments.len()
            invariant
                i <= self.filaments@.len() <= MAX_FILAMENTS,
                forall|j: int| 0 <= j < self.filaments@.len() ==> #[trigger] self.filaments@[j].within_limits(),
                filament_total == spec_filaments_cost(self.filaments@.take(i as int)),
                filament_total <= i * filament_cost_bound(),
            decreases self.filaments@.len() - i,
        {
            let cost = filament_cost(&self.filaments[i]);
            proof {
                let prefix = self.filaments@.take(i as int + 1);
                assert(prefix.drop_last() =~= self.filaments@.take(i as int));
                assert(prefix.last() == self.filaments@[i as int]);
                lemma_filament_cost_bound(self.filaments@[i as int]);
                assert(i * filament_cost_bound() + filament_cost_bound() == (i + 1) * filament_cost_bound())
                    by (nonlinear_arith);
            }
            filament_total = filament_total + cost;
            i = i + 1;
        }
        assert(self.filaments@.take(i as int) =~= self.filaments@);
        let material = filament_total + purge_cost(self.purge_waste_weight);
        let electricity = electricity_cost(self.printer_wattage, self.print_time, self.electricity_rate);
        let wear = wear_and_tear_cost(self.print_time, self.purge_waste_weight);
        let hourly = hourly_cost(self.hourly_charge, self.print_time);
        assert(filament_total <= 32_000_000_000_000_000_000_000_000_000) by (nonlinear_arith)
            requires filament_total <= i * filament_cost_bound(), i <= MAX_FILAMENTS;
        assert(electricity <= 1_000_000_000_000_000_000_000_000_000) by (nonlinear_arith)
            requires
                electricity == self.printer_wattage * self.print_time * self.electricity_rate,
                self.printer_wattage <= MAX_QUANTITY,
                self.print_time <= MAX_QUANTITY,
                self.electricity_rate <= MAX_QUANTITY;
        assert(hourly <= 1_000_000_000_000_000_000_000_000) by (nonlinear_arith)
            requires
                hourly == self.hourly_charge * self.print_time * 1_000_000,
                self.hourly_charge <= MAX_QUANTITY,
                self.print_time <= MAX_QUANTITY;
        let total = material + electricity + wear + hourly + flat_cost(self.shipping_cost);
        assert(total * (FULL_PRICE_MILLIPERCENT + self.markup_percentage) <= u128::MAX) by (nonlinear_arith)
            requires
                total <= 40_000_000_000_000_000_000_000_000_000,
                self.markup_percentage <= MAX_QUANTITY;
        let suggested = marked_up(total, self.markup_percentage);
        assert(suggested <= total * 20_000) by (nonlinear_arith)
            requires
                suggested == total * (FULL_PRICE_MILLIPERCENT + self.markup_percentage) / FULL_PRICE_MILLIPERCENT as int,
                self.markup_percentage <= MAX_QUANTITY;
        let post_processing = hourly_cost(self.post_processing_rate, self.post_processing_hours);
        assert(post_processing <= 1_000_000_000_000_000_000_000_000) by (nonlinear_arith)
            requires
                post_processing == self.post_processing_rate * self.post_processing_hours * 1_000_000,
                self.post_processing_rate <= MAX_QUANTITY,
                self.post_processing_hours <= MAX_QUANTITY;
        self.wear_and_tear_cost = wear;
        self.total_cost = total;
        self.suggested_price = suggested;
        self.suggested_price_with_post_processing = suggested + post_processing;
    }
}

/// Computing the costs a second time, with no input changed in between, gives
/// the same session: the derived costs are a function of the inputs alone.
pub proof fn lemma_recompute_idempotent(session: CalculatorLogic)
    ensures
        session.recomputed().recomputed() == session.recomputed(),
{
}

} // verus!
