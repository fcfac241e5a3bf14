//! The fixed brand and material price table.
//!
//! Prices are in thousandths of a currency unit per kilogram of filament.
use vstd::prelude::*;

verus! {

/// One material of a brand and its price per kilogram.
pub struct MaterialPrice {
    pub material: String,
    pub price: u64,
}

/// The materials that one brand offers, with their prices.
pub struct BrandPrices {
    pub brand: String,
    pub materials: Vec<MaterialPrice>,
}

/// A read-only mapping from brand to material to price per kilogram.
pub struct PriceCatalog {
    pub brands: Vec<BrandPrices>,
}

/// What a table of one brand's materials holds: names and prices, in order.
pub type MaterialTable = Seq<(Seq<char>, u64)>;

/// What a catalog holds: each brand's name and its material table, in order.
pub type CatalogTable = Seq<(Seq<char>, MaterialTable)>;

impl View for MaterialPrice {
    type V = (Seq<char>, u64);

    open spec fn view(&self) -> (Seq<char>, u64) {
        (self.material@, self.price)
    }
}

impl View for BrandPrices {
    type V = (Seq<char>, MaterialTable);

    open spec fn view(&self) -> (Seq<char>, MaterialTable) {
        (self.brand@, self.materials@.map_values(|m: MaterialPrice| m@))
    }
}

impl View for PriceCatalog {
    type V = CatalogTable;

    open spec fn view(&self) -> CatalogTable {
        self.brands@.map_values(|b: BrandPrices| b@)
    }
}

/// The price of the first entry of `table` named `material`, if there is one.
pub open spec fn price_in(table: MaterialTable, material: Seq<char>) -> Option<u64>
    decreases table.len(),
{
    if table.len() == 0 {
        None
    } else if table[0].0 == material {
        Some(table[0].1)
    } else {
        price_in(table.drop_first(), material)
    }
}

/// The material table of the first entry of `catalog` named `brand`, if there is one.
pub open spec fn materials_of(catalog: CatalogTable, brand: Seq<char>) -> Option<MaterialTable>
    decreases catalog.len(),
{
    if catalog.len() == 0 {
        None
    } else if catalog[0].0 == brand {
        Some(catalog[0].1)
    } else {
        materials_of(catalog.drop_first(), brand)
    }
}

/// The price that `catalog` holds for `material` of `brand`: absent where the
/// brand is absent or does not list the material. Names match exactly.
pub open spec fn catalog_price(catalog: CatalogTable, brand: Seq<char>, material: Seq<char>) -> Option<u64> {
    match materials_of(catalog, brand) {
        Some(table) => price_in(table, material),
        None => None,
    }
}

proof fn lemma_price_in_skip(table: MaterialTable, material: Seq<char>, i: int)
    requires
        0 <= i < table.len(),
        table[i].0 != material,
    ensures
        price_in(table.subrange(i, table.len() as int), material)
            == price_in(table.subrange(i + 1, table.len() as int), material),
{
    let rest = table.subrange(i, table.len() as int);
    assert(rest.drop_first() =~= table.subrange(i + 1, table.len() as int));
}

proof fn lemma_materials_of_skip(catalog: CatalogTable, brand: Seq<char>, i: int)
    requires
        0 <= i < catalog.len(),
        catalog[i].0 != brand,
    ensures
        materials_of(catalog.subrange(i, catalog.len() as int), brand)
            == materials_of(catalog.subrange(i + 1, catalog.len() as int), brand),
{
    let rest = catalog.subrange(i, catalog.len() as int);
    assert(rest.drop_first() =~= catalog.subrange(i + 1, catalog.len() as int));
}

impl MaterialPrice {
    /// An entry pricing `material` at `price` thousandths per kilogram.
    pub fn new(material: &str, price: u64) -> (r: MaterialPrice)
        ensures
            r@ == (material@, price),
    {
        MaterialPrice { material: material.to_string(), price }
    }
}

impl BrandPrices {
    /// The price of `material` in this brand's table.
    pub fn price_of(&self, material: &String) -> (r: Option<u64>)
        ensures
            r == price_in(self@.1, material@),
    {
        let ghost table = self@.1;
        let mut i: usize = 0;
        assert(table.subrange(0, table.len() as int) =~= table);
        while i < self.materials.len()
            invariant
                i <= self.materials@.len(),
                table == self.materials@.map_values(|m: MaterialPrice| m@),
                price_in(table, material@) == price_in(table.subrange(i as int, table.len() as int), material@),
            decreases self.materials@.len() - i,
        {
            let entry = &self.materials[i];
            if entry.material == *material {
                assert(table.subrange(i as int, table.len() as int)[0] == table[i as int]);
                return Some(entry.price);
            }
            proof {
                lemma_price_in_skip(table, material@, i as int);
            }
            i = i + 1;
        }
        assert(table.subrange(i as int, table.len() as int).len() == 0);
        None
    }
}

impl PriceCatalog {
    /// The entry of `brand`, holding the materials that it offers; absent for a
    /// brand that the catalog does not hold. Names match exactly.
    pub fn brand_prices(&self, brand: &str) -> (r: Option<&BrandPrices>)
        ensures
            match r {
                Some(entry) => entry.brand@ == brand@ && materials_of(self@, brand@) == Some(entry@.1),
                None => materials_of(self@, brand@) is None,
            },
    {
        let brand_name = brand.to_string();
        let ghost catalog = self@;
        let mut i: usize = 0;
        assert(catalog.subrange(0, catalog.len() as int) =~= catalog);
        while i < self.brands.len()
            invariant
                i <= self.brands@.len(),
                catalog == self.brands@.map_values(|b: BrandPrices| b@),
                brand_name@ == brand@,
                materials_of(catalog, brand@) == materials_of(catalog.subrange(i as int, catalog.len() as int), brand@),
            decreases self.brands@.len() - i,
        {
            let entry = &self.brands[i];
            if entry.brand == brand_name {
                assert(catalog.subrange(i as int, catalog.len() as int)[0] == catalog[i as int]);
                assert(catalog[i as int] == entry@);
                return Some(entry);
            }
            proof {
                lemma_materials_of_skip(catalog, brand@, i as int);
            }
            i = i + 1;
        }
        assert(catalog.subrange(i as int, catalog.len() as int).len() == 0);
        None
    }

    /// The stored price per kilogram of `material` of `brand`; absent for a
    /// pair that the catalog does not hold. Names match exactly, case included.
    pub fn lookup_price(&self, brand: &str, material: &str) -> (r: Option<u64>)
        ensures
            r == catalog_price(self@, brand@, material@),
    {
        match self.brand_prices(brand) {
            Some(entry) => {
                let material_name = material.to_string();
                entry.price_of(&material_name)
            },
            None => None,
        }
    }
}

/// The prices of Bambu Lab's materials.
pub open spec fn bambu_lab_table() -> MaterialTable {
    seq![
        ("PLA"@, 27080u64),
        ("PLA Metal"@, 29160u64),
        ("PLA Silk"@, 29160u64),
        ("PLA Matte"@, 23960u64),
        ("PLA Luminous"@, 29160u64),
        ("PC"@, 44800u64),
        ("PA6"@, 46880u64),
        ("PETG"@, 22990u64),
        ("ABS"@, 27080u64),
        ("ASA"@, 33330u64),
        ("TPU 95A"@, 45840u64),
        ("Support PLA/PETG"@, 38540u64),
        ("Support ABS"@, 17710u64),
        ("PVA Support"@, 43760u64),
    ]
}

/// The prices of eSun's materials.
pub open spec fn esun_table() -> MaterialTable {
    seq![
        ("PETG"@, 22990u64),
        ("ABS+"@, 22990u64),
        ("ABS+ High Speed"@, 22990u64),
        ("ASA"@, 25990u64),
        ("TPU 95A"@, 37990u64),
        ("PLA+"@, 23990u64),
        ("PLA Matte"@, 19990u64),
        ("PLA Silk Magic Multicolor"@, 25990u64),
        ("PLA Silk"@, 19990u64),
        ("PLA Silk Metal"@, 19990u64),
        ("PLA Metal"@, 28990u64),
        ("PLA Luminous"@, 26990u64),
    ]
}

/// The prices of Elegoo's materials.
pub open spec fn elegoo_table() -> MaterialTable {
    seq![
        ("PLA"@, 17500u64),
    ]
}

/// The prices of Raise3D's materials.
pub open spec fn raise3d_table() -> MaterialTable {
    seq![
        ("PLA Hyper Speed"@, 44900u64),
        ("ABS Hyper Speed"@, 44900u64),
        ("ASA"@, 49900u64),
        ("PETG"@, 36900u64),
        ("ABS"@, 36900u64),
        ("PLA"@, 36900u64),
    ]
}

/// The prices of Polymaker's materials.
pub open spec fn polymaker_table() -> MaterialTable {
    seq![
        ("PolyMax Tough PETG"@, 45900u64),
        ("Polylite ASA"@, 34900u64),
        ("Polylite PLA"@, 29900u64),
        ("PA6"@, 54900u64),
        ("Polyflex TPU"@, 35900u64),
        ("Polymax PLA"@, 45900u64),
        ("PolyTerra PLA"@, 20460u64),
        ("PolySonic PLA"@, 31900u64),
    ]
}

/// The prices of Creality's materials.
pub open spec fn creality_table() -> MaterialTable {
    seq![
        ("PETG"@, 19900u64),
        ("PLA+"@, 17900u64),
        ("ABS Hyper Speed"@, 28900u64),
        ("PLA Hyper Speed"@, 24800u64),
    ]
}

/// The brands and prices that the standard catalog holds.
pub open spec fn standard_table() -> CatalogTable {
    seq![
        ("Bambu Lab"@, bambu_lab_table()),
        ("eSun"@, esun_table()),
        ("Elegoo"@, elegoo_table()),
        ("Raise3D"@, raise3d_table()),
        ("Polymaker"@, polymaker_table()),
        ("Creality"@, creality_table()),
    ]
}

fn bambu_lab() -> (r: BrandPrices)
    ensures
        r@ == ("Bambu Lab"@, bambu_lab_table()),
{
    let materials = vec![
        MaterialPrice::new("PLA", 27080),
        MaterialPrice::new("PLA Metal", 29160),
        MaterialPrice::new("PLA Silk", 29160),
        MaterialPrice::new("PLA Matte", 23960),
        MaterialPrice::new("PLA Luminous", 29160),
        MaterialPrice::new("PC", 44800),
        MaterialPrice::new("PA6", 46880),
        MaterialPrice::new("PETG", 22990),
        MaterialPrice::new("ABS", 27080),
        MaterialPrice::new("ASA", 33330),
        MaterialPrice::new("TPU 95A", 45840),
        MaterialPrice::new("Support PLA/PETG", 38540),
        MaterialPrice::new("Support ABS", 17710),
        MaterialPrice::new("PVA Support", 43760),
    ];
    let r = BrandPrices { brand: "Bambu Lab".to_string(), materials };
    assert(r@.1 =~= bambu_lab_table());
    r
}

fn esun() -> (r: BrandPrices)
    ensures
        r@ == ("eSun"@, esun_table()),
{
    let materials = vec![
        MaterialPrice::new("PETG", 22990),
        MaterialPrice::new("ABS+", 22990),
        MaterialPrice::new("ABS+ High Speed", 22990),
        MaterialPrice::new("ASA", 25990),
        MaterialPrice::new("TPU 95A", 37990),
        MaterialPrice::new("PLA+", 23990),
        MaterialPrice::new("PLA Matte", 19990),
        MaterialPrice::new("PLA Silk Magic Multicolor", 25990),
        MaterialPrice::new("PLA Silk", 19990),
        MaterialPrice::new("PLA Silk Metal", 19990),
        MaterialPrice::new("PLA Metal", 28990),
        MaterialPrice::new("PLA Luminous", 26990),
    ];
    let r = BrandPrices { brand: "eSun".to_string(), materials };
    assert(r@.1 =~= esun_table());
    r
}

fn elegoo() -> (r: BrandPrices)
    ensures
        r@ == ("Elegoo"@, elegoo_table()),
{
    let materials = vec![
        MaterialPrice::new("PLA", 17500),
    ];
    let r = BrandPrices { brand: "Elegoo".to_string(), materials };
    assert(r@.1 =~= elegoo_table());
    r
}

fn raise3d() -> (r: BrandPrices)
    ensures
        r@ == ("Raise3D"@, raise3d_table()),
{
    let materials = vec![
        MaterialPrice::new("PLA Hyper Speed", 44900),
        MaterialPrice::new("ABS Hyper Speed", 44900),
        MaterialPrice::new("ASA", 49900),
        MaterialPrice::new("PETG", 36900),
        MaterialPrice::new("ABS", 36900),
        MaterialPrice::new("PLA", 36900),
    ];
    let r = BrandPrices { brand: "Raise3D".to_string(), materials };
    assert(r@.1 =~= raise3d_table());
    r
}

fn polymaker() -> (r: BrandPrices)
    ensures
        r@ == ("Polymaker"@, polymaker_table()),
{
    let materials = vec![
        MaterialPrice::new("PolyMax Tough PETG", 45900),
        MaterialPrice::new("Polylite ASA", 34900),
        MaterialPrice::new("Polylite PLA", 29900),
        MaterialPrice::new("PA6", 54900),
        MaterialPrice::new("Polyflex TPU", 35900),
        MaterialPrice::new("Polymax PLA", 45900),
        MaterialPrice::new("PolyTerra PLA", 20460),
        MaterialPrice::new("PolySonic PLA", 31900),
    ];
    let r = BrandPrices { brand: "Polymaker".to_string(), materials };
    assert(r@.1 =~= polymaker_table());
    r
}

fn creality() -> (r: BrandPrices)
    ensures
        r@ == ("Creality"@, creality_table()),
{
    let materials = vec![
        MaterialPrice::new("PETG", 19900),
        MaterialPrice::new("PLA+", 17900),
        MaterialPrice::new("ABS Hyper Speed", 28900),
        MaterialPrice::new("PLA Hyper Speed", 24800),
    ];
    let r = BrandPrices { brand: "Creality".to_string(), materials };
    assert(r@.1 =~= creality_table());
    r
}

/// The standard price table: six brands and the materials each offers.
pub fn get_filament_prices() -> (r: PriceCatalog)
    ensures
        r@ == standard_table(),
{
    let brands = vec![
        bambu_lab(),
        esun(),
        elegoo(),
        raise3d(),
        polymaker(),
        creality(),
    ];
    let r = PriceCatalog { brands };
    assert(r@ =~= standard_table());
    r
}


} // verus!
