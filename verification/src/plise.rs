//! Product configuration of one pleated-screen unit.
//!
//! A unit belongs to one of three product families and carries one of three
//! frame colors.  Each family fixes two weight coefficients, for the frame
//! ("kasa") and the sash ("kanat") profile.  A coefficient is stored as six
//! thousand times the effective per-centimeter weight: the effective weight
//! of the Klasik frame, for example, is `2200 / 6000`.  Keeping the factor
//! six in the stored value is a convention of the product tables and is
//! preserved exactly.

use vstd::prelude::*;

verus! {

/// The three product families.
#[derive(Clone, Copy, PartialEq, Eq, Structural, Debug)]
pub enum PliseName {
    Klasik,
    Genis,
    Ince,
}

/// The three frame colors.
#[derive(Clone, Copy, PartialEq, Eq, Structural, Debug)]
pub enum ColorName {
    Beyaz,
    Boya,
    Ahsap,
}

/// Frame weight coefficient of a family, in six-thousandths of a weight
/// unit per centimeter.
pub open spec fn spec_kasa_coef(name: PliseName) -> int {
    match name {
        PliseName::Klasik => 2200,
        PliseName::Genis => 3204,
        PliseName::Ince => 1314,
    }
}

/// Sash weight coefficient of a family, in six-thousandths of a weight
/// unit per centimeter.
pub open spec fn spec_kanat_coef(name: PliseName) -> int {
    match name {
        PliseName::Klasik => 2400,
        PliseName::Genis => 2400,
        PliseName::Ince => 2070,
    }
}

/// One unit's configuration: family, color, and the two stored weight
/// coefficients.  The coefficients are determined by the family through the
/// fixed table above; `wf` states that binding and every constructor and
/// mutator of this type maintains it.  The color is independent of the
/// family.
#[derive(Clone, Copy, PartialEq, Eq, Structural, Debug)]
pub struct PliseType {
    pub name: PliseName,
    pub color: ColorName,
    pub kasa_weight_times_six: u64,
    pub kanat_weight_times_six: u64,
}

impl PliseType {
    /// The stored coefficients are exactly the table entries of the stored
    /// family.
    pub open spec fn wf(self) -> bool {
        &&& self.kasa_weight_times_six == spec_kasa_coef(self.name)
        &&& self.kanat_weight_times_six == spec_kanat_coef(self.name)
    }

    /// A configuration of the given family and color, with the family's
    /// table coefficients.
    pub fn new(name: PliseName, boya: ColorName) -> (r: PliseType)
        ensures
            r.wf(),
            r.name == name,
            r.color == boya,
    {
        match name {
            PliseName::Klasik => PliseType {
                name,
                color: boya,
                kasa_weight_times_six: 2200,
                kanat_weight_times_six: 2400,
            },
            PliseName::Genis => PliseType {
                name,
                color: boya,
                kasa_weight_times_six: 3204,
                kanat_weight_times_six: 2400,
            },
            PliseName::Ince => PliseType {
                name,
                color: boya,
                kasa_weight_times_six: 1314,
                kanat_weight_times_six: 2070,
            },
        }
    }

    /// Replace the family: the coefficients become exactly the new
    /// family's table entries and the color is untouched.
    pub fn set_name(&mut self, name: PliseName)
        ensures
            final(self).name == name,
            final(self).color == old(self).color,
            final(self).kasa_weight_times_six == spec_kasa_coef(name),
            final(self).kanat_weight_times_six == spec_kanat_coef(name),
            final(self).wf(),
    {
        match name {
            PliseName::Klasik => {
                self.name = PliseName::Klasik;
                self.kasa_weight_times_six = 2200;
                self.kanat_weight_times_six = 2400;
            },
            PliseName::Genis => {
                self.name = PliseName::Genis;
                self.kasa_weight_times_six = 3204;
                self.kanat_weight_times_six = 2400;
            },
            PliseName::Ince => {
                self.name = PliseName::Ince;
                self.kasa_weight_times_six = 1314;
                self.kanat_weight_times_six = 2070;
            },
        }
    }

    /// Replace the color only.
    pub fn set_color(&mut self, boya: ColorName)
        ensures
            final(self).color == boya,
            final(self).name == old(self).name,
            final(self).kasa_weight_times_six == old(self).kasa_weight_times_six,
            final(self).kanat_weight_times_six == old(self).kanat_weight_times_six,
    {
        self.color = boya;
    }

    /// The stored frame coefficient: six thousand times the effective
    /// per-centimeter frame weight.
    pub fn get_kasa_weight(&self) -> (r: u64)
        ensures
            r == self.kasa_weight_times_six,
    {
        self.kasa_weight_times_six
    }

    /// The stored sash coefficient: six thousand times the effective
    /// per-centimeter sash weight.
    pub fn get_kanat_weight(&self) -> (r: u64)
        ensures
            r == self.kanat_weight_times_six,
    {
        self.kanat_weight_times_six
    }

    pub fn get_color(&self) -> (r: ColorName)
        ensures
            r == self.color,
    {
        self.color
    }

    pub fn get_name(&self) -> (r: PliseName)
        ensures
            r == self.name,
    {
        self.name
    }
}

impl Default for PliseType {
    /// A Klasik unit in white, with the Klasik table coefficients.
    fn default() -> (r: PliseType)
        ensures
            r.wf(),
            r.name == PliseName::Klasik,
            r.color == ColorName::Beyaz,
    {
        PliseType {
            name: PliseName::Klasik,
            color: ColorName::Beyaz,
            kasa_weight_times_six: 2200,
            kanat_weight_times_six: 2400,
        }
    }
}

} // verus!
