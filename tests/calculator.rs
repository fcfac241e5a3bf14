use fdm_cost_calculator::filament_prices::get_filament_prices;
use fdm_cost_calculator::logic::{
    CalculatorLogic, Currency, FilamentPricing, FilamentUsage, MAX_FILAMENTS,
};
use fdm_cost_calculator::pricing::{
    electricity_cost, filament_cost, flat_cost, hourly_cost, marked_up, purge_cost,
    wear_and_tear_cost,
};

/// One currency unit in the unit of derived costs.
const UNIT: u128 = 1_000_000_000_000;

fn filament(price_per_kg: u64, weight: u64, carbon: bool) -> FilamentUsage {
    FilamentUsage {
        brand: "Custom".to_string(),
        material: "Custom".to_string(),
        weight,
        pricing: FilamentPricing::PerKilogram { price: price_per_kg },
        is_carbon_based: carbon,
    }
}

/// The session of the worked example: one filament at 27.08 per kg, 100 g,
/// a 250 W printer for two hours at 0.12 per kWh, a markup of 20 %.
fn example_session(carbon: bool) -> CalculatorLogic {
    let mut s = CalculatorLogic::default();
    s.filaments = vec![filament(27_080, 100_000, carbon)];
    s.printer_wattage = 250_000;
    s.print_time = 2_000;
    s.electricity_rate = 120;
    s.shipping_cost = 0;
    s.purge_waste_weight = 0;
    s.hourly_charge = 0;
    s.markup_percentage = 20_000;
    s.post_processing_hours = 0;
    s
}

fn same_costs(a: &CalculatorLogic, b: &CalculatorLogic) -> bool {
    a.wear_and_tear_cost == b.wear_and_tear_cost
        && a.total_cost == b.total_cost
        && a.suggested_price == b.suggested_price
        && a.suggested_price_with_post_processing == b.suggested_price_with_post_processing
}

#[test]
fn end_to_end_plain_filament() {
    let mut s = example_session(false);
    assert!(s.is_within_limits());
    assert_eq!(filament_cost(&s.filaments[0]), 2_708_000_000_000);
    assert_eq!(electricity_cost(250_000, 2_000, 120), 60_000_000_000);
    s.calculate_costs();
    assert_eq!(s.wear_and_tear_cost, 100_000_000_000);
    assert_eq!(s.total_cost, 2_868_000_000_000);
    assert_eq!(s.suggested_price, 3_441_600_000_000);
    assert_eq!(s.suggested_price_with_post_processing, 3_441_600_000_000);
    let total = s.total_cost as f64 / UNIT as f64;
    let suggested = s.suggested_price as f64 / UNIT as f64;
    assert!((total - 2.868).abs() < 1e-9);
    assert!((suggested - 3.4416).abs() < 1e-9);
}

#[test]
fn end_to_end_carbon_filament() {
    let mut s = example_session(true);
    assert_eq!(filament_cost(&s.filaments[0]), 3_708_000_000_000);
    s.calculate_costs();
    assert_eq!(s.total_cost, 3_868_000_000_000);
    assert_eq!(s.suggested_price, 4_641_600_000_000);
}

#[test]
fn catalog_lookup() {
    let catalog = get_filament_prices();
    assert_eq!(catalog.lookup_price("Bambu Lab", "PETG"), Some(22_990));
    assert_eq!(catalog.lookup_price("Unknown", "X"), None);
    assert_eq!(catalog.lookup_price("Elegoo", "PLA"), Some(17_500));
    assert_eq!(catalog.lookup_price("Polymaker", "PolyTerra PLA"), Some(20_460));
    assert_eq!(catalog.lookup_price("Creality", "PLA Hyper Speed"), Some(24_800));
    assert_eq!(catalog.lookup_price("bambu lab", "PETG"), None);
    assert_eq!(catalog.lookup_price("Elegoo", "PETG"), None);
    assert_eq!(catalog.brands.len(), 6);
}

#[test]
fn catalog_brand_entries() {
    let catalog = get_filament_prices();
    let elegoo = catalog.brand_prices("Elegoo").unwrap();
    assert_eq!(elegoo.brand, "Elegoo");
    assert_eq!(elegoo.materials.len(), 1);
    assert_eq!(catalog.brand_prices("Bambu Lab").unwrap().materials.len(), 14);
    assert_eq!(catalog.brand_prices("Raise3D").unwrap().price_of(&"ASA".to_string()), Some(49_900));
    assert!(catalog.brand_prices("Custom").is_none());
}

#[test]
fn material_cost_grows_with_price_and_weight() {
    let base = filament_cost(&filament(27_080, 100_000, false));
    let dearer = filament_cost(&filament(30_000, 100_000, false));
    let heavier = filament_cost(&filament(27_080, 150_000, false));
    let both = filament_cost(&filament(30_000, 150_000, false));
    assert!(base <= dearer && base <= heavier && dearer <= both && heavier <= both);
    assert_eq!(filament_cost(&filament(0, 100_000, false)), 0);
    assert_eq!(filament_cost(&filament(27_080, 0, false)), 0);
}

#[test]
fn carbon_surcharge_is_ten_per_kilogram() {
    let weight: u64 = 250_000;
    let plain = filament_cost(&filament(22_990, weight, false));
    let carbon = filament_cost(&filament(22_990, weight, true));
    assert_eq!(carbon - plain, 10 * UNIT / 4);
}

#[test]
fn roll_pricing_divides_by_roll_weight() {
    let f = FilamentUsage {
        brand: "Custom".to_string(),
        material: "Custom".to_string(),
        weight: 100_000,
        pricing: FilamentPricing::PerRoll { price: 20_000, roll_weight: 750_000 },
        is_carbon_based: false,
    };
    assert_eq!(filament_cost(&f), 2_666_666_666_666);
    let kilo_roll = FilamentUsage {
        pricing: FilamentPricing::PerRoll { price: 27_080, roll_weight: 1_000_000 },
        ..f
    };
    assert_eq!(filament_cost(&kilo_roll), 2_708_000_000_000);
}

#[test]
fn formulas_exact_values() {
    assert_eq!(purge_cost(5_000), 50_000_000_000);
    assert_eq!(wear_and_tear_cost(2_000, 0), 100_000_000_000);
    assert_eq!(wear_and_tear_cost(2_000, 5_000), 150_000_000_000);
    assert_eq!(hourly_cost(2_500, 2_000), 5 * UNIT);
    assert_eq!(flat_cost(4_990), 4_990_000_000_000);
    assert_eq!(marked_up(1_000, 20_000), 1_200);
    assert_eq!(marked_up(1_000, 0), 1_000);
    assert_eq!(marked_up(7, 50_000), 10);
}

#[test]
fn full_session_with_every_term() {
    let mut s = example_session(false);
    s.purge_waste_weight = 5_000;
    s.hourly_charge = 2_500;
    s.shipping_cost = 4_990;
    s.post_processing_hours = 1_500;
    s.post_processing_rate = 15_000;
    s.calculate_costs();
    // material 2.708 + purge 0.05 + electricity 0.06 + wear 0.15 + hourly 5 + shipping 4.99
    assert_eq!(s.wear_and_tear_cost, 150_000_000_000);
    assert_eq!(s.total_cost, 12_958_000_000_000);
    assert_eq!(s.suggested_price, 15_549_600_000_000);
    assert_eq!(s.suggested_price_with_post_processing, 15_549_600_000_000 + 22_500_000_000_000);
}

#[test]
fn recompute_is_idempotent() {
    let mut s = example_session(true);
    s.purge_waste_weight = 1_234;
    s.post_processing_hours = 500;
    s.calculate_costs();
    let mut again = example_session(true);
    again.purge_waste_weight = 1_234;
    again.post_processing_hours = 500;
    again.calculate_costs();
    again.calculate_costs();
    assert!(same_costs(&s, &again));
}

#[test]
fn resize_keeps_prefix_and_appends_defaults() {
    let mut s = CalculatorLogic::default();
    s.filaments = vec![filament(27_080, 100_000, true), filament(22_990, 50_000, false)];
    s.update_filament_count(4);
    assert_eq!(s.filaments.len(), 4);
    assert_eq!(s.filaments[0].weight, 100_000);
    assert!(s.filaments[0].is_carbon_based);
    assert_eq!(s.filaments[1].pricing, FilamentPricing::PerKilogram { price: 22_990 });
    for f in &s.filaments[2..] {
        assert_eq!(f.brand, "Custom");
        assert_eq!(f.material, "Custom");
        assert_eq!(f.weight, 0);
        assert_eq!(f.pricing, FilamentPricing::PerKilogram { price: 0 });
        assert!(!f.is_carbon_based);
    }
    s.update_filament_count(1);
    assert_eq!(s.filaments.len(), 1);
    assert_eq!(s.filaments[0].weight, 100_000);
    s.update_filament_count(1);
    assert_eq!(s.filaments.len(), 1);
    s.update_filament_count(0);
    assert!(s.filaments.is_empty());
}

#[test]
fn add_filament_stops_at_capacity() {
    let mut s = CalculatorLogic::default();
    for _ in 0..MAX_FILAMENTS + 3 {
        s.add_filament();
    }
    assert_eq!(s.filaments.len(), 16);
    s.add_filament();
    assert_eq!(s.filaments.len(), 16);
}

#[test]
fn remove_filament_out_of_bounds_is_ignored() {
    let mut s = CalculatorLogic::default();
    s.filaments = vec![filament(1, 10, false), filament(2, 20, false), filament(3, 30, false)];
    s.remove_filament(3);
    s.remove_filament(100);
    assert_eq!(s.filaments.len(), 3);
    s.remove_filament(1);
    assert_eq!(s.filaments.len(), 2);
    assert_eq!(s.filaments[0].weight, 10);
    assert_eq!(s.filaments[1].weight, 30);
}

#[test]
fn currency_cycles_and_leaves_costs() {
    let mut s = example_session(false);
    s.calculate_costs();
    let before = example_session(false);
    let mut reference = before;
    reference.calculate_costs();
    assert_eq!(s.currency, Currency::EUR);
    assert_eq!(s.currency_symbol(), "€");
    s.switch_currency();
    assert_eq!(s.currency, Currency::GBP);
    assert_eq!(s.currency_symbol(), "£");
    s.switch_currency();
    assert_eq!(s.currency, Currency::USD);
    assert_eq!(s.currency_symbol(), "$");
    s.switch_currency();
    assert_eq!(s.currency, Currency::EUR);
    assert!(same_costs(&s, &reference));
}

#[test]
fn default_session() {
    let s = CalculatorLogic::default();
    assert_eq!(s.currency, Currency::EUR);
    assert_eq!(s.filaments.len(), 1);
    assert_eq!(s.filaments[0].brand, "Custom");
    assert_eq!(s.electricity_rate, 260);
    assert_eq!(s.printer_wattage, 250_000);
    assert_eq!(s.hourly_charge, 2_500);
    assert_eq!(s.markup_percentage, 20_000);
    assert_eq!(s.post_processing_rate, 15_000);
    assert_eq!(s.total_cost, 0);
    assert_eq!(s.filament_prices.lookup_price("eSun", "PLA+"), Some(23_990));
}

#[test]
fn limits_are_checked() {
    let mut s = CalculatorLogic::default();
    assert!(s.is_within_limits());
    s.filaments[0].pricing = FilamentPricing::PerRoll { price: 20_000, roll_weight: 0 };
    assert!(!s.is_within_limits());
    s.filaments[0].pricing = FilamentPricing::PerRoll { price: 20_000, roll_weight: 1_000_000 };
    assert!(s.is_within_limits());
    s.print_time = 1_000_000_001;
    assert!(!s.is_within_limits());
    s.print_time = 0;
    s.update_filament_count(17);
    assert!(!s.is_within_limits());
}

#[test]
fn brand_and_material_selection() {
    let catalog = get_filament_prices();
    let mut f = filament(0, 80_000, true);
    f.select_brand("Bambu Lab");
    assert_eq!(f.brand, "Bambu Lab");
    assert_eq!(f.material, "Custom");
    f.select_material(&catalog, "PETG");
    assert_eq!(f.material, "PETG");
    assert_eq!(f.pricing, FilamentPricing::PerKilogram { price: 22_990 });
    f.select_material(&catalog, "Unobtainium");
    assert_eq!(f.material, "Unobtainium");
    assert_eq!(f.pricing, FilamentPricing::PerKilogram { price: 22_990 });
    f.select_brand("Custom");
    assert_eq!(f.material, "Custom");
    assert_eq!(f.pricing, FilamentPricing::PerKilogram { price: 0 });
    assert_eq!(f.weight, 80_000);
    assert!(f.is_carbon_based);
}

#[test]
fn print_mode_switches_filament_count() {
    let mut s = CalculatorLogic::default();
    s.select_print_mode(true);
    assert_eq!(s.filaments.len(), 2);
    s.add_filament();
    s.select_print_mode(true);
    assert_eq!(s.filaments.len(), 3);
    s.filaments[0].weight = 42;
    s.select_print_mode(false);
    assert_eq!(s.filaments.len(), 1);
    assert_eq!(s.filaments[0].weight, 42);
}
