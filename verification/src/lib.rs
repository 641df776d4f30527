//! Pricing engine for custom-sized pleated insect-screen units.
//!
//! Each ordered unit is described by its width and height in whole
//! centimeters and a product configuration (family and color).  The library
//! derives the physical material quantities of a unit, prices an order
//! against a tunable price book, and encodes the price book to bytes for
//! persistence.  All arithmetic is exact integer arithmetic: lengths are
//! whole centimeters, money is in cents, and the weight coefficients are
//! kept at six thousand times their effective value so that every division
//! is explicit and carries a stated rounding policy.

pub mod arith;
pub mod codec;
pub mod consumable;
pub mod html;
pub mod numfmt;
pub mod plise;
pub mod price;

use vstd::prelude::*;

verus! {

/// Which of the auxiliary panels of the surrounding interface are open.
/// The library only records the flags; the interface reads and sets them.
pub struct Visibility {
    pub show_settings: bool,
    pub show_maliyet: bool,
    pub show_price: bool,
}

impl Visibility {
    /// A fresh state: no panel is open.
    pub fn new() -> (r: Visibility)
        ensures
            !r.show_settings,
            !r.show_maliyet,
            !r.show_price,
    {
        Visibility { show_settings: false, show_maliyet: false, show_price: false }
    }
}

} // verus!
