//! One ordered unit and its derived material quantities.
//!
//! A unit is its width and height in whole centimeters together with a
//! product configuration.  Every quantity below is a pure function of those
//! three fields.  The single structural break point of the product is the
//! width of 150 cm: a unit at least that wide gets a doubled sash and strip
//! and different hardware counts.  The two weighted lengths (frame and
//! sash) are rounded to the nearest whole centimeter, ties toward positive
//! infinity; the other quantities are exact whole numbers already.

use vstd::prelude::*;

verus! {

use crate::arith::rnd;
use crate::numfmt::{push_dec, push_dec_signed, spec_dec, spec_dec_signed};
use crate::plise::{ColorName, PliseName, PliseType, spec_kanat_coef, spec_kasa_coef};

/// Upper bound on a stored dimension, in centimeters.  The engine itself
/// has no product-rule bound; this cap only keeps every intermediate
/// product inside the machine integers, far beyond any real window.
pub const MAX_DIM_CM: u64 = 50_000;

/// Width from which a unit counts as large: doubled sash and strip,
/// different hardware counts.
pub const WIDE_LIMIT_CM: u64 = 150;

/// One ordered unit.
#[derive(Clone, Copy, PartialEq, Eq, Structural, Debug)]
pub struct Consumable {
    pub plise_type: PliseType,
    pub width: u64,
    pub height: u64,
}

/// Frame profile length in cm: the half-perimeter less 5 cm, doubled and
/// weighted by the family's frame coefficient, rounded.
pub open spec fn spec_kasa_cm(c: Consumable) -> int {
    rnd(2 * (c.width + c.height - 5) * spec_kasa_coef(c.plise_type.name), 6000)
}

/// Sash profile length in cm: the height less 8 cm weighted by the sash
/// coefficient, doubled for a large unit, rounded.
pub open spec fn spec_kanat_cm(c: Consumable) -> int {
    if c.width < WIDE_LIMIT_CM {
        rnd((c.height - 8) * spec_kanat_coef(c.plise_type.name), 6000)
    } else {
        rnd(2 * (c.height - 8) * spec_kanat_coef(c.plise_type.name), 6000)
    }
}

/// Mesh area in square centimeters.
pub open spec fn spec_tul_cm_squared(c: Consumable) -> int {
    c.width * c.height
}

/// Strip length in cm: twice the height less 5 cm, doubled again for a
/// large unit.
pub open spec fn spec_serit_cm(c: Consumable) -> int {
    if c.width < WIDE_LIMIT_CM {
        2 * (c.height - 5)
    } else {
        4 * (c.height - 5)
    }
}

/// Corner count: always four.
pub open spec fn spec_kose_adet(c: Consumable) -> int {
    4
}

/// Wheel count: two, four for a large unit.
pub open spec fn spec_teker_adet(c: Consumable) -> int {
    if c.width < WIDE_LIMIT_CM {
        2
    } else {
        4
    }
}

/// Clip count: four, eight for a large unit.
pub open spec fn spec_klips_adet(c: Consumable) -> int {
    if c.width < WIDE_LIMIT_CM {
        4
    } else {
        8
    }
}

/// Stop count: two, four for a large unit.
pub open spec fn spec_stop_adet(c: Consumable) -> int {
    if c.width < WIDE_LIMIT_CM {
        2
    } else {
        4
    }
}

/// Return count: two, none for a large unit.
pub open spec fn spec_donus_adet(c: Consumable) -> int {
    if c.width < WIDE_LIMIT_CM {
        2
    } else {
        0
    }
}

impl Consumable {
    /// Positive dimensions within the machine cap, and a configuration
    /// whose coefficients match its family.
    pub open spec fn wf(self) -> bool {
        &&& self.plise_type.wf()
        &&& 1 <= self.width <= MAX_DIM_CM
        &&& 1 <= self.height <= MAX_DIM_CM
    }

    /// A unit of the given configuration and dimensions.
    pub fn new(plise_type: PliseType, width: u32, height: u32) -> (r: Consumable)
        requires
            plise_type.wf(),
            1 <= width <= MAX_DIM_CM,
            1 <= height <= MAX_DIM_CM,
        ensures
            r.wf(),
            r.plise_type == plise_type,
            r.width == width,
            r.height == height,
    {
        Consumable { plise_type, width: width as u64, height: height as u64 }
    }

    pub fn set_plise_name(&mut self, plise_name: PliseName)
        ensures
            final(self).plise_type.name == plise_name,
            final(self).plise_type.color == old(self).plise_type.color,
            final(self).plise_type.wf(),
            final(self).width == old(self).width,
            final(self).height == old(self).height,
    {
        self.plise_type.set_name(plise_name)
    }

    pub fn get_plise_name(&self) -> (r: PliseName)
        ensures
            r == self.plise_type.name,
    {
        self.plise_type.get_name()
    }

    pub fn check_plise_name(&self, plise_name: PliseName) -> (r: bool)
        ensures
            r == (self.plise_type.name == plise_name),
    {
        self.get_plise_name() == plise_name
    }

    pub fn set_plise_color(&mut self, color: ColorName)
        ensures
            final(self).plise_type.color == color,
            final(self).plise_type.name == old(self).plise_type.name,
            final(self).plise_type.kasa_weight_times_six == old(
                self,
            ).plise_type.kasa_weight_times_six,
            final(self).plise_type.kanat_weight_times_six == old(
                self,
            ).plise_type.kanat_weight_times_six,
            final(self).width == old(self).width,
            final(self).height == old(self).height,
    {
        self.plise_type.set_color(color)
    }

    pub fn get_plise_color(&self) -> (r: ColorName)
        ensures
            r == self.plise_type.color,
    {
        self.plise_type.get_color()
    }

    pub fn check_plise_color(&self, color: ColorName) -> (r: bool)
        ensures
            r == (self.plise_type.color == color),
    {
        self.get_plise_color() == color
    }

    /// Frame length in cm, rounded to the nearest whole centimeter.
    pub fn get_kasa_cm(&self) -> (r: i64)
        requires
            self.wf(),
        ensures
            r == spec_kasa_cm(*self),
    {
        let s: i64 = self.width as i64 + self.height as i64 - 5;
        let coef: i64 = self.plise_type.get_kasa_weight() as i64;
        proof {
            assert(1314 <= coef <= 3204);
            crate::arith::lemma_mul_bounds_signed(2 * s as int, -6, 199_990, coef as int, 3204);
        }
        crate::arith::round_div(2 * s * coef, 6000)
    }

    /// Sash length in cm, rounded; doubled before rounding for a large
    /// unit.
    pub fn get_kanat_cm(&self) -> (r: i64)
        requires
            self.wf(),
        ensures
            r == spec_kanat_cm(*self),
    {
        let s: i64 = self.height as i64 - 8;
        let coef: i64 = self.plise_type.get_kanat_weight() as i64;
        proof {
            assert(2070 <= coef <= 2400);
            crate::arith::lemma_mul_bounds_signed(s as int, -7, 49_992, coef as int, 2400);
            crate::arith::lemma_mul_bounds_signed(2 * s as int, -14, 99_984, coef as int, 2400);
        }
        if self.width < WIDE_LIMIT_CM {
            crate::arith::round_div(s * coef, 6000)
        } else {
            crate::arith::round_div(2 * s * coef, 6000)
        }
    }

    /// Mesh area in square centimeters.
    pub fn get_tul_cm_squared(&self) -> (r: i64)
        requires
            self.wf(),
        ensures
            r == spec_tul_cm_squared(*self),
    {
        proof {
            crate::arith::lemma_mul_le_le(
                self.width as int,
                MAX_DIM_CM as int,
                self.height as int,
                MAX_DIM_CM as int,
            );
        }
        (self.width as i64) * (self.height as i64)
    }

    /// Strip length in cm.
    pub fn get_serit_cm(&self) -> (r: i64)
        requires
            self.wf(),
        ensures
            r == spec_serit_cm(*self),
    {
        let s: i64 = self.height as i64 - 5;
        if self.width < WIDE_LIMIT_CM {
            2 * s
        } else {
            4 * s
        }
    }

    /// Corner count: four, for every unit.
    pub fn get_kose_adet(&self) -> (r: u64)
        ensures
            r == spec_kose_adet(*self),
    {
        4
    }

    /// Wheel count: two below the 150 cm width limit, four from it on.
    pub fn get_teker_adet(&self) -> (r: u64)
        ensures
            r == spec_teker_adet(*self),
    {
        if self.width < WIDE_LIMIT_CM {
            2
        } else {
            4
        }
    }

    /// Clip count: four below the 150 cm width limit, eight from it on.
    pub fn get_klips_adet(&self) -> (r: u64)
        ensures
            r == spec_klips_adet(*self),
    {
        if self.width < WIDE_LIMIT_CM {
            4
        } else {
            8
        }
    }

    /// Stop count: two below the 150 cm width limit, four from it on.
    pub fn get_stop_adet(&self) -> (r: u64)
        ensures
            r == spec_stop_adet(*self),
    {
        if self.width < WIDE_LIMIT_CM {
            2
        } else {
            4
        }
    }

    /// Return count: two below the 150 cm width limit, none from it on.
    pub fn get_donus_adet(&self) -> (r: u64)
        ensures
            r == spec_donus_adet(*self),
    {
        if self.width < WIDE_LIMIT_CM {
            2
        } else {
            0
        }
    }

    /// The measurement row of this unit for the price document.
    pub fn generate_wh_html_table(&self, idx: usize) -> (r: String)
        ensures
            r@ == spec_wh_row(*self, idx as int),
    {
        let mut out: String = "\n    <tr>\n        <td>".to_owned();
        push_dec(&mut out, idx as u64);
        out.append("</td>\n        <td>");
        push_dec(&mut out, self.width);
        out.append("x");
        push_dec(&mut out, self.height);
        out.append("</td>\n        <td>");
        out.append(name_text(self.get_plise_name()));
        out.append("</td>\n        <td>");
        out.append(color_text(self.get_plise_color()));
        out.append("</td>\n    </tr>\n");
        out
    }

    /// The quantity row of this unit for the material document.
    pub fn generate_html_table(&self, idx: usize) -> (r: String)
        requires
            self.wf(),
        ensures
            r@ == spec_quantity_row(*self, idx as int),
    {
        proof {
            crate::price::lemma_quantity_bounds(*self);
        }
        let mut out: String = "\n    <tr>\n        <td>".to_owned();
        push_dec(&mut out, idx as u64);
        out.append("</td>\n        <td>");
        out.append(name_text(self.get_plise_name()));
        out.append("</td>\n        <td>");
        out.append(color_text(self.get_plise_color()));
        out.append("</td>\n        <td>");
        push_dec_signed(&mut out, self.get_kasa_cm());
        out.append("</td>\n        <td>");
        push_dec_signed(&mut out, self.get_kanat_cm());
        out.append("</td>\n        <td>");
        push_dec_signed(&mut out, self.get_tul_cm_squared());
        out.append("</td>\n        <td>");
        push_dec_signed(&mut out, self.get_serit_cm());
        out.append("</td>\n        <td>");
        push_dec(&mut out, self.get_kose_adet());
        out.append("</td>\n        <td>");
        push_dec(&mut out, self.get_teker_adet());
        out.append("</td>\n        <td>");
        push_dec(&mut out, self.get_klips_adet());
        out.append("</td>\n        <td>");
        push_dec(&mut out, self.get_stop_adet());
        out.append("</td>\n        <td>");
        push_dec(&mut out, self.get_donus_adet());
        out.append("</td>\n    </tr>\n");
        out
    }
}

/// The display word of a family.
pub open spec fn spec_name_text(n: PliseName) -> Seq<char> {
    match n {
        PliseName::Klasik => "Klasik"@,
        PliseName::Genis => "Genis"@,
        PliseName::Ince => "Ince"@,
    }
}

/// The display word of a color.
pub open spec fn spec_color_text(n: ColorName) -> Seq<char> {
    match n {
        ColorName::Beyaz => "Beyaz"@,
        ColorName::Boya => "Boya"@,
        ColorName::Ahsap => "Ahsap"@,
    }
}

/// The display word of a family.
pub fn name_text(n: PliseName) -> (r: &'static str)
    ensures
        r@ == spec_name_text(n),
{
    match n {
        PliseName::Klasik => "Klasik",
        PliseName::Genis => "Genis",
        PliseName::Ince => "Ince",
    }
}

/// The display word of a color.
pub fn color_text(n: ColorName) -> (r: &'static str)
    ensures
        r@ == spec_color_text(n),
{
    match n {
        ColorName::Beyaz => "Beyaz",
        ColorName::Boya => "Boya",
        ColorName::Ahsap => "Ahsap",
    }
}

/// The measurement row of a unit in the price document: position,
/// dimensions, family, color.
pub open spec fn spec_wh_row(c: Consumable, idx: int) -> Seq<char> {
    "\n    <tr>\n        <td>"@ + spec_dec(idx) + "</td>\n        <td>"@ + spec_dec(c.width as int)
        + "x"@ + spec_dec(c.height as int) + "</td>\n        <td>"@ + spec_name_text(
        c.plise_type.name,
    ) + "</td>\n        <td>"@ + spec_color_text(c.plise_type.color) + "</td>\n    </tr>\n"@
}

/// The quantity row of a unit in the material document: position, family,
/// color, and the nine derived quantities.
pub open spec fn spec_quantity_row(c: Consumable, idx: int) -> Seq<char> {
    "\n    <tr>\n        <td>"@ + spec_dec(idx) + "</td>\n        <td>"@ + spec_name_text(
        c.plise_type.name,
    ) + "</td>\n        <td>"@ + spec_color_text(c.plise_type.color) + "</td>\n        <td>"@
        + spec_dec_signed(spec_kasa_cm(c)) + "</td>\n        <td>"@ + spec_dec_signed(
        spec_kanat_cm(c),
    ) + "</td>\n        <td>"@ + spec_dec_signed(spec_tul_cm_squared(c)) + "</td>\n        <td>"@
        + spec_dec_signed(spec_serit_cm(c)) + "</td>\n        <td>"@ + spec_dec(spec_kose_adet(c))
        + "</td>\n        <td>"@ + spec_dec(spec_teker_adet(c)) + "</td>\n        <td>"@ + spec_dec(
        spec_klips_adet(c),
    ) + "</td>\n        <td>"@ + spec_dec(spec_stop_adet(c)) + "</td>\n        <td>"@ + spec_dec(
        spec_donus_adet(c),
    ) + "</td>\n    </tr>\n"@
}

impl Default for Consumable {
    /// A default-configured 40 by 40 cm unit.
    fn default() -> (r: Consumable)
        ensures
            r.wf(),
            r.plise_type.name == PliseName::Klasik,
            r.plise_type.color == ColorName::Beyaz,
            r.width == 40,
            r.height == 40,
    {
        Consumable { plise_type: PliseType::default(), width: 40, height: 40 }
    }
}

} // verus!
