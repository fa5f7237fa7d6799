//! Value types for the nutrient aggregation engine: per-100g nutrient
//! profiles, exact rational densities, and absolute computed amounts.
//!
//! A nutrient field that is absent means "unknown", which is distinct from
//! zero. Densities carry an exact numerator/denominator pair so that a
//! density computed from a dish and later scaled by a consumed weight loses
//! no precision before the final truncation to whole units.

use vstd::prelude::*;

verus! {

/// Largest weight, in grams, that the engine accepts (items, declared
/// totals and consumed weights). The bound keeps every intermediate
/// product of the exact arithmetic inside `u128`.
pub const MAX_GRAMS: i64 = 1_000_000_000;

/// Largest per-100g nutrient quantity that a profile may carry.
pub const MAX_PER_100G: i64 = 1_000_000_000;

/// Largest number of weighted items in one density computation.
pub const MAX_ITEMS: usize = 1_000_000_000;

/// Largest denominator a well-formed density can carry:
/// `MAX_ITEMS * MAX_GRAMS`, the largest possible effective total.
pub const MAX_DENSITY_DEN: u64 = 1_000_000_000_000_000_000;

/// Largest numerator a well-formed density can carry:
/// `MAX_PER_100G * MAX_ITEMS * MAX_GRAMS`, the largest possible
/// weighted nutrient sum.
pub const MAX_DENSITY_NUM: u128 = 1_000_000_000_000_000_000_000_000_000;

/// The four nutrient fields every profile, density and amount carries.
#[derive(Clone, Copy, Debug, PartialEq, Eq, Structural)]
pub enum Nutrient {
    Kcal,
    Protein,
    Fat,
    Carbohydrate,
}

/// Per-100g nutrient quantities of a single ingredient. A `None` field
/// means no value was recorded for that nutrient.
#[derive(Clone, Copy, Debug, PartialEq, Eq, Structural)]
pub struct NutrientProfile {
    pub kcal: Option<i64>,
    pub protein: Option<i64>,
    pub fat: Option<i64>,
    pub carbohydrate: Option<i64>,
}

/// Whether a recorded per-100g quantity is within the engine's range.
pub open spec fn per_100g_ok(v: Option<i64>) -> bool {
    match v {
        Option::None => true,
        Option::Some(x) => 0 <= x <= MAX_PER_100G,
    }
}

impl NutrientProfile {
    /// The value of one nutrient field.
    pub open spec fn spec_field(self, n: Nutrient) -> Option<i64> {
        match n {
            Nutrient::Kcal => self.kcal,
            Nutrient::Protein => self.protein,
            Nutrient::Fat => self.fat,
            Nutrient::Carbohydrate => self.carbohydrate,
        }
    }

    /// Every recorded quantity is a non-negative number within range.
    pub open spec fn wf(self) -> bool {
        &&& per_100g_ok(self.kcal)
        &&& per_100g_ok(self.protein)
        &&& per_100g_ok(self.fat)
        &&& per_100g_ok(self.carbohydrate)
    }

    /// A profile with no recorded nutrient at all.
    pub fn unknown() -> (p: NutrientProfile)
        ensures
            p == (NutrientProfile {
                kcal: Option::<i64>::None,
                protein: Option::<i64>::None,
                fat: Option::<i64>::None,
                carbohydrate: Option::<i64>::None,
            }),
    {
        NutrientProfile { kcal: None, protein: None, fat: None, carbohydrate: None }
    }
}

/// An exact non-negative rational quantity per 100 grams. The fraction is
/// kept unreduced exactly as the density computation produced it.
#[derive(Clone, Copy, Debug, PartialEq, Eq, Structural)]
pub struct Rational {
    pub num: u128,
    pub den: u64,
}

impl Rational {
    /// The denominator is positive and both parts are small enough that
    /// scaling by any accepted weight stays inside `u128`.
    pub open spec fn wf(self) -> bool {
        &&& 1 <= self.den <= MAX_DENSITY_DEN
        &&& self.num <= MAX_DENSITY_NUM
    }

    /// A whole per-100g quantity, as produced from a recorded profile value.
    pub fn from_whole(v: i64) -> (r: Rational)
        requires
            0 <= v,
        ensures
            r == (Rational { num: v as u128, den: 1u64 }),
    {
        Rational { num: v as u128, den: 1 }
    }
}

/// Per-100g density of a composite item, each field an exact rational.
/// A `None` field means the density of that nutrient is unknown.
#[derive(Clone, Copy, Debug, PartialEq, Eq, Structural)]
pub struct NutrientDensity {
    pub kcal: Option<Rational>,
    pub protein: Option<Rational>,
    pub fat: Option<Rational>,
    pub carbohydrate: Option<Rational>,
}

/// Whether a density field is either unknown or a well-formed rational.
pub open spec fn density_field_ok(v: Option<Rational>) -> bool {
    match v {
        Option::None => true,
        Option::Some(r) => r.wf(),
    }
}

impl NutrientDensity {
    /// The value of one nutrient field.
    pub open spec fn spec_field(self, n: Nutrient) -> Option<Rational> {
        match n {
            Nutrient::Kcal => self.kcal,
            Nutrient::Protein => self.protein,
            Nutrient::Fat => self.fat,
            Nutrient::Carbohydrate => self.carbohydrate,
        }
    }

    pub open spec fn wf(self) -> bool {
        &&& density_field_ok(self.kcal)
        &&& density_field_ok(self.protein)
        &&& density_field_ok(self.fat)
        &&& density_field_ok(self.carbohydrate)
    }
}

/// How one recorded per-100g value reads as an exact density field.
pub open spec fn whole_density_field(v: Option<i64>) -> Option<Rational> {
    match v {
        Option::None => None,
        Option::Some(x) => Some(Rational { num: x as u128, den: 1u64 }),
    }
}

/// The density a single ingredient's own profile describes: each recorded
/// per-100g value read as the exact rational `value / 1`, each unknown
/// field left unknown.
pub open spec fn profile_density_spec(p: NutrientProfile) -> NutrientDensity {
    NutrientDensity {
        kcal: whole_density_field(p.kcal),
        protein: whole_density_field(p.protein),
        fat: whole_density_field(p.fat),
        carbohydrate: whole_density_field(p.carbohydrate),
    }
}

/// Reads an ingredient's per-100g profile as an exact density, so that a
/// directly consumed ingredient is scaled by the same path as a dish.
pub fn profile_density(p: &NutrientProfile) -> (d: NutrientDensity)
    requires
        p.wf(),
    ensures
        d == profile_density_spec(*p),
        d.wf(),
{
    NutrientDensity {
        kcal: match p.kcal {
            None => None,
            Some(x) => Some(Rational::from_whole(x)),
        },
        protein: match p.protein {
            None => None,
            Some(x) => Some(Rational::from_whole(x)),
        },
        fat: match p.fat {
            None => None,
            Some(x) => Some(Rational::from_whole(x)),
        },
        carbohydrate: match p.carbohydrate {
            None => None,
            Some(x) => Some(Rational::from_whole(x)),
        },
    }
}

/// Absolute nutrient quantities of one consumption event, truncated to
/// whole units. A `None` field means the amount could not be derived.
#[derive(Clone, Copy, Debug, PartialEq, Eq, Structural)]
pub struct ComputedAmount {
    pub kcal: Option<i64>,
    pub protein: Option<i64>,
    pub fat: Option<i64>,
    pub carbohydrate: Option<i64>,
}

impl ComputedAmount {
    /// The value of one nutrient field.
    pub open spec fn spec_field(self, n: Nutrient) -> Option<i64> {
        match n {
            Nutrient::Kcal => self.kcal,
            Nutrient::Protein => self.protein,
            Nutrient::Fat => self.fat,
            Nutrient::Carbohydrate => self.carbohydrate,
        }
    }
}

} // verus!
