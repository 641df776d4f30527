//! The price book and the pricing engine.
//!
//! All money is in cents and all percentages are whole percent values.
//! The engine is a pure function of its explicit inputs.  Its canonical
//! arithmetic policy, stated once here and followed exactly:
//!
//! - material quantities are rounded to whole units before pricing (see
//!   `consumable`);
//! - the cost of one line is computed exactly over the rounded quantities,
//!   the labor percentage is applied, and the result is rounded once to the
//!   nearest cent;
//! - the order's cost is the exact sum of the rounded line costs;
//! - profit is applied once, as a single flat percentage — the book's
//!   selected family's profit entry — to the grand total, then rounded to
//!   the nearest cent; value-added tax is applied to that price in the same
//!   way;
//! - every rounding is to nearest, ties toward positive infinity.

use vstd::prelude::*;

verus! {

use vstd::arithmetic::mul::{lemma_mul_inequality, lemma_mul_left_inequality};
use crate::arith::{
    lemma_mul_bounds_signed,
    lemma_mul_le_le,
    lemma_rnd_monotone,
    lemma_rnd_unfold,
    rnd,
    round_div_wide,
};
use crate::consumable::{
    Consumable,
    spec_donus_adet,
    spec_kanat_cm,
    spec_kasa_cm,
    spec_klips_adet,
    spec_kose_adet,
    spec_serit_cm,
    spec_stop_adet,
    spec_teker_adet,
    spec_tul_cm_squared,
    WIDE_LIMIT_CM,
};
use crate::plise::{ColorName, PliseName};

/// Upper bound on a unit price, in cents.  Far beyond any real price; it
/// only keeps the cost arithmetic inside the machine integers.
pub const MAX_PRICE_CENTS: u64 = 100_000_000;

/// Upper bound on a percentage entry of the book, in whole percent.
pub const MAX_PERCENT: u64 = 300;

/// Upper bound on the number of lines priced in one order.
pub const MAX_ITEMS: u32 = 1000;

/// Aluminum profile price per meter for each frame color, in cents.
#[derive(Clone, Copy, PartialEq, Eq, Structural, Debug)]
pub struct ColorPrice {
    pub beyaz: u64,
    pub boya: u64,
    pub ahsap: u64,
}

/// The tunable price book: unit prices in cents, percentages in whole
/// percent.  `plise_name` selects which family's profit entry is applied
/// to an order's grand total.
#[derive(Clone, Copy, PartialEq, Eq, Structural, Debug)]
pub struct Price {
    pub plise_name: PliseName,
    pub color_price: ColorPrice,
    pub tul_price: u64,
    pub serit_price: u64,
    pub teker_price: u64,
    pub klips_price: u64,
    pub stop_price: u64,
    pub donus_price: u64,
    pub klasik_kose_price: u64,
    pub genis_kose_price: u64,
    pub ince_kose_price: u64,
    pub klasik_kar: u64,
    pub genis_kar: u64,
    pub ince_kar: u64,
    pub isci_maliyeti: u64,
    pub kdv: u64,
}

/// The aluminum price the book gives for a color.
pub open spec fn spec_alum_price(p: Price, color: ColorName) -> int {
    match color {
        ColorName::Beyaz => p.color_price.beyaz as int,
        ColorName::Boya => p.color_price.boya as int,
        ColorName::Ahsap => p.color_price.ahsap as int,
    }
}

/// The corner price the book gives for a family.
pub open spec fn spec_kose_price(p: Price, name: PliseName) -> int {
    match name {
        PliseName::Klasik => p.klasik_kose_price as int,
        PliseName::Genis => p.genis_kose_price as int,
        PliseName::Ince => p.ince_kose_price as int,
    }
}

/// The profit percentage applied to the grand total: the entry of the
/// book's selected family.
pub open spec fn spec_kar(p: Price) -> int {
    match p.plise_name {
        PliseName::Klasik => p.klasik_kar as int,
        PliseName::Genis => p.genis_kar as int,
        PliseName::Ince => p.ince_kar as int,
    }
}

/// Exact material-plus-hardware cost of one line before labor, in
/// ten-thousandths of a cent.  Lengths are in cm and the aluminum and strip
/// prices are per meter, hence the factor 100; the mesh price is per square
/// meter, hence the area's factor 1; hardware is per piece, hence the
/// factor 10000.
pub open spec fn spec_line_base_tenk(c: Consumable, p: Price) -> int {
    spec_kasa_cm(c) * spec_alum_price(p, c.plise_type.color) * 100
        + spec_kanat_cm(c) * spec_alum_price(p, c.plise_type.color) * 100
        + spec_tul_cm_squared(c) * p.tul_price
        + spec_serit_cm(c) * p.serit_price * 100
        + (spec_kose_adet(c) * spec_kose_price(p, c.plise_type.name)
            + spec_teker_adet(c) * p.teker_price
            + spec_klips_adet(c) * p.klips_price
            + spec_stop_adet(c) * p.stop_price
            + spec_donus_adet(c) * p.donus_price) * 10000
}

/// Cost of one line in cents: the base cost with the labor percentage
/// applied, rounded once to the nearest cent.
pub open spec fn spec_line_cost_cents(c: Consumable, p: Price) -> int {
    rnd(spec_line_base_tenk(c, p) * (100 + p.isci_maliyeti), 1_000_000)
}

/// Cost of an order in cents: the sum of its lines' costs.
pub open spec fn spec_total_cost(lines: Seq<Consumable>, p: Price) -> int
    decreases lines.len(),
{
    if lines.len() == 0 {
        0
    } else {
        spec_total_cost(lines.drop_last(), p) + spec_line_cost_cents(lines.last(), p)
    }
}

/// Price of an order in cents: the cost with the flat profit percentage
/// applied, rounded to the nearest cent.
pub open spec fn spec_total_price(total_cost: int, p: Price) -> int {
    rnd(total_cost * (100 + spec_kar(p)), 100)
}

/// Price of an order with value-added tax, in cents.
pub open spec fn spec_total_price_kdv(total_price: int, p: Price) -> int {
    rnd(total_price * (100 + p.kdv), 100)
}

impl Price {
    /// Every price and percentage within its machine cap.
    pub open spec fn wf(self) -> bool {
        &&& self.color_price.beyaz <= MAX_PRICE_CENTS
        &&& self.color_price.boya <= MAX_PRICE_CENTS
        &&& self.color_price.ahsap <= MAX_PRICE_CENTS
        &&& self.tul_price <= MAX_PRICE_CENTS
        &&& self.serit_price <= MAX_PRICE_CENTS
        &&& self.teker_price <= MAX_PRICE_CENTS
        &&& self.klips_price <= MAX_PRICE_CENTS
        &&& self.stop_price <= MAX_PRICE_CENTS
        &&& self.donus_price <= MAX_PRICE_CENTS
        &&& self.klasik_kose_price <= MAX_PRICE_CENTS
        &&& self.genis_kose_price <= MAX_PRICE_CENTS
        &&& self.ince_kose_price <= MAX_PRICE_CENTS
        &&& self.klasik_kar <= MAX_PERCENT
        &&& self.genis_kar <= MAX_PERCENT
        &&& self.ince_kar <= MAX_PERCENT
        &&& self.isci_maliyeti <= MAX_PERCENT
        &&& self.kdv <= MAX_PERCENT
    }

    /// Whether every entry is within its cap; callers that receive a book
    /// from outside test this before pricing with it.
    pub fn wf_check(&self) -> (r: bool)
        ensures
            r == self.wf(),
    {
        self.color_price.beyaz <= MAX_PRICE_CENTS && self.color_price.boya <= MAX_PRICE_CENTS
            && self.color_price.ahsap <= MAX_PRICE_CENTS && self.tul_price <= MAX_PRICE_CENTS
            && self.serit_price <= MAX_PRICE_CENTS && self.teker_price <= MAX_PRICE_CENTS
            && self.klips_price <= MAX_PRICE_CENTS && self.stop_price <= MAX_PRICE_CENTS
            && self.donus_price <= MAX_PRICE_CENTS && self.klasik_kose_price <= MAX_PRICE_CENTS
            && self.genis_kose_price <= MAX_PRICE_CENTS && self.ince_kose_price <= MAX_PRICE_CENTS
            && self.klasik_kar <= MAX_PERCENT && self.genis_kar <= MAX_PERCENT
            && self.ince_kar <= MAX_PERCENT && self.isci_maliyeti <= MAX_PERCENT
            && self.kdv <= MAX_PERCENT
    }

    /// Cost of one line in cents, per the policy above.
    #[verifier::rlimit(100)]
    pub fn calculate_single_price(&self, consumable: &Consumable) -> (r: i64)
        requires
            self.wf(),
            consumable.wf(),
        ensures
            r == spec_line_cost_cents(*consumable, *self),
            -1_000_000_000 <= r <= 200_000_000_000_000,
    {
        let alum_price: u64 = match consumable.get_plise_color() {
            ColorName::Beyaz => self.color_price.beyaz,
            ColorName::Boya => self.color_price.boya,
            ColorName::Ahsap => self.color_price.ahsap,
        };
        let kose_price: u64 = match consumable.get_plise_name() {
            PliseName::Klasik => self.klasik_kose_price,
            PliseName::Genis => self.genis_kose_price,
            PliseName::Ince => self.ince_kose_price,
        };
        let kasa: i128 = consumable.get_kasa_cm() as i128;
        let kanat: i128 = consumable.get_kanat_cm() as i128;
        let tul: i128 = consumable.get_tul_cm_squared() as i128;
        let serit: i128 = consumable.get_serit_cm() as i128;
        let kose: i128 = consumable.get_kose_adet() as i128;
        let teker: i128 = consumable.get_teker_adet() as i128;
        let klips: i128 = consumable.get_klips_adet() as i128;
        let stop: i128 = consumable.get_stop_adet() as i128;
        let donus: i128 = consumable.get_donus_adet() as i128;
        let alum: i128 = alum_price as i128;
        proof {
            lemma_quantity_bounds(*consumable);
            lemma_mul_bounds_signed(
                spec_kasa_cm(*consumable),
                -3,
                106_796,
                alum as int,
                MAX_PRICE_CENTS as int,
            );
            lemma_mul_bounds_signed(
                spec_kanat_cm(*consumable),
                -6,
                39_994,
                alum as int,
                MAX_PRICE_CENTS as int,
            );
            lemma_mul_le_le(
                spec_tul_cm_squared(*consumable),
                2_500_000_000,
                self.tul_price as int,
                MAX_PRICE_CENTS as int,
            );
            lemma_mul_bounds_signed(
                spec_serit_cm(*consumable),
                -16,
                199_980,
                self.serit_price as int,
                MAX_PRICE_CENTS as int,
            );
            lemma_mul_le_le(4, 4, spec_kose_price(*self, consumable.plise_type.name), MAX_PRICE_CENTS as int);
            lemma_mul_le_le(spec_teker_adet(*consumable), 4, self.teker_price as int, MAX_PRICE_CENTS as int);
            lemma_mul_le_le(spec_klips_adet(*consumable), 8, self.klips_price as int, MAX_PRICE_CENTS as int);
            lemma_mul_le_le(spec_stop_adet(*consumable), 4, self.stop_price as int, MAX_PRICE_CENTS as int);
            lemma_mul_le_le(spec_donus_adet(*consumable), 2, self.donus_price as int, MAX_PRICE_CENTS as int);
        }
        let base: i128 = kasa * alum * 100 + kanat * alum * 100 + tul * (self.tul_price as i128)
            + serit * (self.serit_price as i128) * 100 + (kose * (kose_price as i128) + teker
            * (self.teker_price as i128) + klips * (self.klips_price as i128) + stop
            * (self.stop_price as i128) + donus * (self.donus_price as i128)) * 10000;
        proof {
            lemma_mul_bounds_signed(
                base as int,
                -1_000_000_000_000,
                300_000_000_000_000_000,
                100 + self.isci_maliyeti as int,
                400,
            );
        }
        let scaled: i128 = base * (100 + self.isci_maliyeti as i128);
        let cost: i128 = round_div_wide(scaled, 1_000_000);
        proof {
            lemma_rnd_monotone(-400_000_000_000_000, scaled as int, 1_000_000);
            lemma_rnd_monotone(scaled as int, 120_000_000_000_000_000_000, 1_000_000);
            lemma_rnd_unfold(-400_000_000_000_000, 1_000_000);
            lemma_rnd_unfold(120_000_000_000_000_000_000, 1_000_000);
        }
        cost as i64
    }

    /// Cost, price, and price with tax of an order, in cents: the first
    /// `item_count` lines participate, later entries of the list are
    /// ignored.
    #[verifier::rlimit(100)]
    pub fn calculate_prices(&self, consumables: &Vec<Consumable>, item_count: u32) -> (r: (
        i64,
        i64,
        i64,
    ))
        requires
            self.wf(),
            item_count as int <= consumables@.len(),
            item_count <= MAX_ITEMS,
            forall|i: int| 0 <= i < item_count ==> consumables@[i].wf(),
        ensures
            r.0 == spec_total_cost(consumables@.take(item_count as int), *self),
            r.1 == spec_total_price(r.0 as int, *self),
            r.2 == spec_total_price_kdv(r.1 as int, *self),
    {
        let mut maliyet: i64 = 0;
        let mut i: u32 = 0;
        while i < item_count
            invariant
                self.wf(),
                item_count as int <= consumables@.len(),
                item_count <= MAX_ITEMS,
                forall|k: int| 0 <= k < item_count ==> consumables@[k].wf(),
                i <= item_count,
                maliyet == spec_total_cost(consumables@.take(i as int), *self),
                -1_000_000_000 * (i as int) <= maliyet <= 200_000_000_000_000 * (i as int),
            decreases item_count - i,
        {
            let lc = self.calculate_single_price(&consumables[i as usize]);
            proof {
                let s1 = consumables@.take(i as int + 1);
                assert(s1.drop_last() =~= consumables@.take(i as int));
                assert(s1.last() == consumables@[i as int]);
            }
            maliyet = maliyet + lc;
            i = i + 1;
        }
        let kar: u64 = match self.plise_name {
            PliseName::Klasik => self.klasik_kar,
            PliseName::Genis => self.genis_kar,
            PliseName::Ince => self.ince_kar,
        };
        proof {
            lemma_mul_bounds_signed(
                maliyet as int,
                -1_000_000_000_000,
                200_000_000_000_000_000,
                100 + kar as int,
                400,
            );
        }
        let scaled: i128 = (maliyet as i128) * (100 + kar as i128);
        let price_wide: i128 = round_div_wide(scaled, 100);
        proof {
            lemma_rnd_monotone(-400_000_000_000_000, scaled as int, 100);
            lemma_rnd_monotone(scaled as int, 80_000_000_000_000_000_000, 100);
            lemma_rnd_unfold(-400_000_000_000_000, 100);
            lemma_rnd_unfold(80_000_000_000_000_000_000, 100);
        }
        let total_price: i64 = price_wide as i64;
        proof {
            lemma_mul_bounds_signed(
                total_price as int,
                -4_000_000_000_000,
                800_000_000_000_000_000,
                100 + self.kdv as int,
                400,
            );
        }
        let scaled_kdv: i128 = (total_price as i128) * (100 + self.kdv as i128);
        let kdv_wide: i128 = round_div_wide(scaled_kdv, 100);
        proof {
            lemma_rnd_monotone(-1_600_000_000_000_000, scaled_kdv as int, 100);
            lemma_rnd_monotone(scaled_kdv as int, 320_000_000_000_000_000_000, 100);
            lemma_rnd_unfold(-1_600_000_000_000_000, 100);
            lemma_rnd_unfold(320_000_000_000_000_000_000, 100);
        }
        (maliyet, total_price, kdv_wide as i64)
    }
}

/// The built-in default book: white aluminum at 120.00, painted at
/// 130.00, wood at 140.00 per meter; mesh at 30.00 per square meter;
/// strip at 3.00 per meter; wheels at 2.50, clips, stops, and returns at
/// 1.00 apiece; corners at 1.00 (4.50 for Ince); 20 percent profit for
/// every family; 30 percent labor; 20 percent tax.
pub open spec fn spec_default_price() -> Price {
    Price {
        plise_name: PliseName::Klasik,
        color_price: ColorPrice { beyaz: 12000, boya: 13000, ahsap: 14000 },
        tul_price: 3000,
        serit_price: 300,
        teker_price: 250,
        klips_price: 100,
        stop_price: 100,
        donus_price: 100,
        klasik_kose_price: 100,
        genis_kose_price: 100,
        ince_kose_price: 450,
        klasik_kar: 20,
        genis_kar: 20,
        ince_kar: 20,
        isci_maliyeti: 30,
        kdv: 20,
    }
}

impl Default for Price {
    /// The built-in default book: the values a fresh installation starts
    /// from.
    fn default() -> (r: Price)
        ensures
            r.wf(),
            r == spec_default_price(),
    {
        Price {
            plise_name: PliseName::Klasik,
            color_price: ColorPrice { beyaz: 12000, boya: 13000, ahsap: 14000 },
            tul_price: 3000,
            serit_price: 300,
            teker_price: 250,
            klips_price: 100,
            stop_price: 100,
            donus_price: 100,
            klasik_kose_price: 100,
            genis_kose_price: 100,
            ince_kose_price: 450,
            klasik_kar: 20,
            genis_kar: 20,
            ince_kar: 20,
            isci_maliyeti: 30,
            kdv: 20,
        }
    }
}

/// Bounds of the four length and area quantities of a well-formed unit.
#[verifier::rlimit(100)]
pub proof fn lemma_quantity_bounds(c: Consumable)
    requires
        c.wf(),
    ensures
        -3 <= spec_kasa_cm(c) <= 106_796,
        -6 <= spec_kanat_cm(c) <= 39_994,
        0 <= spec_tul_cm_squared(c) <= 2_500_000_000,
        -16 <= spec_serit_cm(c) <= 199_980,
{
    let kasa_coef = crate::plise::spec_kasa_coef(c.plise_type.name);
    let kanat_coef = crate::plise::spec_kanat_coef(c.plise_type.name);
    let s = 2 * (c.width + c.height - 5);
    lemma_mul_bounds_signed(s, -6, 199_990, kasa_coef, 3204);
    lemma_rnd_monotone(-6 * 3204, s * kasa_coef, 6000);
    lemma_rnd_monotone(s * kasa_coef, (199_990 * 3204) as int, 6000);
    lemma_rnd_unfold(-6 * 3204, 6000);
    lemma_rnd_unfold((199_990 * 3204) as int, 6000);
    let t = c.height - 8;
    lemma_mul_bounds_signed(t, -7, 49_992, kanat_coef, 2400);
    lemma_rnd_monotone(-7 * 2400, t * kanat_coef, 6000);
    lemma_rnd_monotone(t * kanat_coef, (49_992 * 2400) as int, 6000);
    lemma_mul_bounds_signed(2 * t, -14, 99_984, kanat_coef, 2400);
    lemma_rnd_monotone(-14 * 2400, 2 * t * kanat_coef, 6000);
    lemma_rnd_monotone(2 * t * kanat_coef, (99_984 * 2400) as int, 6000);
    lemma_rnd_unfold(-7 * 2400, 6000);
    lemma_rnd_unfold((49_992 * 2400) as int, 6000);
    lemma_rnd_unfold(-14 * 2400, 6000);
    lemma_rnd_unfold((99_984 * 2400) as int, 6000);
    lemma_mul_le_le(c.width as int, 50_000, c.height as int, 50_000);
}

/// Applying the labor percentage and the rounding to cents keeps the
/// order of two base costs.
proof fn lemma_cost_step_monotone(b1: int, b2: int, isci: u64)
    requires
        b1 <= b2,
    ensures
        rnd(b1 * (100 + isci), 1_000_000) <= rnd(b2 * (100 + isci), 1_000_000),
{
    lemma_mul_inequality(b1, b2, 100 + isci as int);
    lemma_rnd_monotone(b1 * (100 + isci), b2 * (100 + isci), 1_000_000);
}

/// Termwise comparison of two base costs: same configuration, each
/// quantity no smaller, and no smaller a hardware bill.
proof fn lemma_base_le(c1: Consumable, c2: Consumable, p: Price)
    requires
        c1.plise_type == c2.plise_type,
        spec_kasa_cm(c1) <= spec_kasa_cm(c2),
        spec_kanat_cm(c1) <= spec_kanat_cm(c2),
        spec_tul_cm_squared(c1) <= spec_tul_cm_squared(c2),
        spec_serit_cm(c1) <= spec_serit_cm(c2),
        spec_teker_adet(c1) * p.teker_price + spec_klips_adet(c1) * p.klips_price
            + spec_stop_adet(c1) * p.stop_price + spec_donus_adet(c1) * p.donus_price
            <= spec_teker_adet(c2) * p.teker_price + spec_klips_adet(c2) * p.klips_price
            + spec_stop_adet(c2) * p.stop_price + spec_donus_adet(c2) * p.donus_price,
    ensures
        spec_line_base_tenk(c1, p) <= spec_line_base_tenk(c2, p),
{
    let alum = spec_alum_price(p, c1.plise_type.color);
    lemma_mul_inequality(spec_kasa_cm(c1), spec_kasa_cm(c2), alum);
    lemma_mul_inequality(spec_kanat_cm(c1), spec_kanat_cm(c2), alum);
    lemma_mul_inequality(spec_tul_cm_squared(c1), spec_tul_cm_squared(c2), p.tul_price as int);
    lemma_mul_inequality(spec_serit_cm(c1), spec_serit_cm(c2), p.serit_price as int);
}

/// The frame length grows with the half-perimeter, within one family.
proof fn lemma_kasa_mono(c1: Consumable, c2: Consumable)
    requires
        c1.plise_type == c2.plise_type,
        c1.width + c1.height <= c2.width + c2.height,
    ensures
        spec_kasa_cm(c1) <= spec_kasa_cm(c2),
{
    let coef = crate::plise::spec_kasa_coef(c1.plise_type.name);
    lemma_mul_inequality(
        2 * (c1.width + c1.height - 5),
        2 * (c2.width + c2.height - 5),
        coef,
    );
    lemma_rnd_monotone(
        2 * (c1.width + c1.height - 5) * coef,
        2 * (c2.width + c2.height - 5) * coef,
        6000,
    );
}

/// The sash length grows with the height, for a fixed width.
proof fn lemma_kanat_mono_height(c1: Consumable, c2: Consumable)
    requires
        c1.plise_type == c2.plise_type,
        c1.width == c2.width,
        c1.height <= c2.height,
    ensures
        spec_kanat_cm(c1) <= spec_kanat_cm(c2),
{
    let coef = crate::plise::spec_kanat_coef(c1.plise_type.name);
    lemma_mul_inequality(c1.height - 8, c2.height - 8, coef);
    lemma_rnd_monotone((c1.height - 8) * coef, (c2.height - 8) * coef, 6000);
    lemma_mul_inequality(2 * (c1.height - 8), 2 * (c2.height - 8), coef);
    lemma_rnd_monotone(2 * (c1.height - 8) * coef, 2 * (c2.height - 8) * coef, 6000);
}

/// The sash length does not shrink when the width grows, for a fixed
/// height of at least the 8 cm the formula subtracts: within one width
/// class it does not depend on the width, and crossing into the large
/// class doubles a non-negative length.
proof fn lemma_kanat_mono_width(c1: Consumable, c2: Consumable)
    requires
        c1.plise_type == c2.plise_type,
        c1.height == c2.height,
        c1.width <= c2.width,
        c1.height >= 8,
    ensures
        spec_kanat_cm(c1) <= spec_kanat_cm(c2),
{
    let coef = crate::plise::spec_kanat_coef(c1.plise_type.name);
    let t = (c1.height - 8) * coef;
    assert(t >= 0) by (nonlinear_arith)
        requires
            c1.height >= 8,
            coef >= 0,
            t == (c1.height - 8) * coef,
    ;
    assert((2 * (c1.height - 8)) * coef == 2 * t) by (nonlinear_arith)
        requires
            t == (c1.height - 8) * coef,
    ;
    if c1.width < WIDE_LIMIT_CM && c2.width >= WIDE_LIMIT_CM {
        lemma_rnd_monotone(t, 2 * t, 6000);
    }
}

/// An order in which no lines participate costs and prices to nothing,
/// whatever the list behind it holds.
pub proof fn lemma_totals_empty(lines: Seq<Consumable>, p: Price)
    ensures
        spec_total_cost(lines.take(0), p) == 0,
        spec_total_price(0, p) == 0,
        spec_total_price_kdv(0, p) == 0,
{
    assert(lines.take(0).len() == 0);
    assert(0 * (100 + spec_kar(p)) == 0);
    assert(0 * (100 + p.kdv as int) == 0);
    lemma_rnd_unfold(0, 100);
}

/// The cost of one line never decreases when its height grows, for fixed
/// width, family, and color, against any well-formed book.
pub proof fn lemma_line_cost_monotone_height(c1: Consumable, c2: Consumable, p: Price)
    requires
        c1.wf(),
        c2.wf(),
        p.wf(),
        c1.plise_type == c2.plise_type,
        c1.width == c2.width,
        c1.height <= c2.height,
    ensures
        spec_line_cost_cents(c1, p) <= spec_line_cost_cents(c2, p),
{
    lemma_kasa_mono(c1, c2);
    lemma_kanat_mono_height(c1, c2);
    lemma_mul_left_inequality(c1.width as int, c1.height as int, c2.height as int);
    assert(spec_serit_cm(c1) <= spec_serit_cm(c2));
    assert(spec_teker_adet(c1) == spec_teker_adet(c2));
    assert(spec_klips_adet(c1) == spec_klips_adet(c2));
    assert(spec_stop_adet(c1) == spec_stop_adet(c2));
    assert(spec_donus_adet(c1) == spec_donus_adet(c2));
    lemma_base_le(c1, c2, p);
    lemma_cost_step_monotone(
        spec_line_base_tenk(c1, p),
        spec_line_base_tenk(c2, p),
        p.isci_maliyeti,
    );
}

/// The cost of one line never decreases when its width grows, for fixed
/// height, family, and color, provided the height is at least the 8 cm the
/// sash formula subtracts and the book's return price does not outweigh
/// the wheel, clip, and stop hardware that a large unit adds.
pub proof fn lemma_line_cost_monotone_width(c1: Consumable, c2: Consumable, p: Price)
    requires
        c1.wf(),
        c2.wf(),
        p.wf(),
        c1.plise_type == c2.plise_type,
        c1.height == c2.height,
        c1.width <= c2.width,
        c1.height >= 8,
        p.donus_price <= p.teker_price + 2 * p.klips_price + p.stop_price,
    ensures
        spec_line_cost_cents(c1, p) <= spec_line_cost_cents(c2, p),
{
    lemma_kasa_mono(c1, c2);
    lemma_kanat_mono_width(c1, c2);
    lemma_mul_inequality(c1.width as int, c2.width as int, c1.height as int);
    assert(spec_serit_cm(c1) <= spec_serit_cm(c2));
    if c1.width < WIDE_LIMIT_CM && c2.width >= WIDE_LIMIT_CM {
        assert(spec_teker_adet(c1) * p.teker_price == 2 * p.teker_price);
        assert(spec_klips_adet(c1) * p.klips_price == 4 * p.klips_price);
        assert(spec_stop_adet(c1) * p.stop_price == 2 * p.stop_price);
        assert(spec_donus_adet(c1) * p.donus_price == 2 * p.donus_price);
        assert(spec_teker_adet(c2) * p.teker_price == 4 * p.teker_price);
        assert(spec_klips_adet(c2) * p.klips_price == 8 * p.klips_price);
        assert(spec_stop_adet(c2) * p.stop_price == 4 * p.stop_price);
        assert(spec_donus_adet(c2) * p.donus_price == 0 * p.donus_price);
    } else {
        assert(spec_teker_adet(c1) == spec_teker_adet(c2));
        assert(spec_klips_adet(c1) == spec_klips_adet(c2));
        assert(spec_stop_adet(c1) == spec_stop_adet(c2));
        assert(spec_donus_adet(c1) == spec_donus_adet(c2));
    }
    assert(spec_teker_adet(c1) * p.teker_price + spec_klips_adet(c1) * p.klips_price
        + spec_stop_adet(c1) * p.stop_price + spec_donus_adet(c1) * p.donus_price
        <= spec_teker_adet(c2) * p.teker_price + spec_klips_adet(c2) * p.klips_price
        + spec_stop_adet(c2) * p.stop_price + spec_donus_adet(c2) * p.donus_price);
    lemma_base_le(c1, c2, p);
    lemma_cost_step_monotone(
        spec_line_base_tenk(c1, p),
        spec_line_base_tenk(c2, p),
        p.isci_maliyeti,
    );
}

} // verus!
