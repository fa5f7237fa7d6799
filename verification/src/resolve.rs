//! Meal component resolution: classifies a consumption event as a direct
//! ingredient consumption or a dish consumption and routes it through the
//! density calculator and the amount scaler.
//!
//! A component references exactly one of a dish or an ingredient; the
//! tagged variants make the two mutually exclusive by construction, and
//! the boundary constructor rejects raw records that carry neither or
//! both. A reference that the supplied catalogs do not contain fails with
//! `UnknownReference` before any arithmetic runs — it is never treated as
//! a zero-weight contribution.

use vstd::prelude::*;

use crate::density::{density, density_spec, DishComposition};
use crate::errors::AggregationError;
use crate::profile::{
    profile_density, profile_density_spec, ComputedAmount, NutrientProfile, MAX_GRAMS,
};
use crate::scale::{scale, scale_spec};

verus! {

/// One consumption event inside a meal: a consumed weight together with a
/// reference to either a dish or a single ingredient.
#[derive(Clone, Copy, Debug, PartialEq, Eq, Structural)]
pub enum MealComponent {
    DishConsumption { dish_id: i64, weight_grams: i64 },
    IngredientConsumption { ingredient_id: i64, weight_grams: i64 },
}

impl MealComponent {
    /// The consumed weight of the event, whichever kind it references.
    pub open spec fn spec_weight(self) -> i64 {
        match self {
            MealComponent::DishConsumption { weight_grams, .. } => weight_grams,
            MealComponent::IngredientConsumption { weight_grams, .. } => weight_grams,
        }
    }

    /// The consumed weight is strictly positive and in range.
    pub open spec fn wf(self) -> bool {
        0 < self.spec_weight() <= MAX_GRAMS
    }

    /// Validates a dish consumption at the boundary: a zero or negative
    /// consumed weight is rejected before it can reach the calculator.
    pub fn dish(dish_id: i64, weight_grams: i64) -> (r: Result<MealComponent, AggregationError>)
        requires
            weight_grams <= MAX_GRAMS,
        ensures
            r == if weight_grams <= 0 {
                Result::<MealComponent, AggregationError>::Err(
                    AggregationError::InvalidWeight(weight_grams),
                )
            } else {
                Result::<MealComponent, AggregationError>::Ok(
                    MealComponent::DishConsumption { dish_id, weight_grams },
                )
            },
            r matches Ok(c) ==> c.wf(),
    {
        if weight_grams <= 0 {
            Err(AggregationError::InvalidWeight(weight_grams))
        } else {
            Ok(MealComponent::DishConsumption { dish_id, weight_grams })
        }
    }

    /// Validates an ingredient consumption at the boundary.
    pub fn ingredient(ingredient_id: i64, weight_grams: i64) -> (r: Result<
        MealComponent,
        AggregationError,
    >)
        requires
            weight_grams <= MAX_GRAMS,
        ensures
            r == if weight_grams <= 0 {
                Result::<MealComponent, AggregationError>::Err(
                    AggregationError::InvalidWeight(weight_grams),
                )
            } else {
                Result::<MealComponent, AggregationError>::Ok(
                    MealComponent::IngredientConsumption { ingredient_id, weight_grams },
                )
            },
            r matches Ok(c) ==> c.wf(),
    {
        if weight_grams <= 0 {
            Err(AggregationError::InvalidWeight(weight_grams))
        } else {
            Ok(MealComponent::IngredientConsumption { ingredient_id, weight_grams })
        }
    }

    /// Builds a component from a raw record that carries two optional
    /// references: exactly one of the two must be present, and the weight
    /// must be strictly positive. The reference check comes first, so a
    /// malformed record is reported as such even when its weight is also
    /// bad.
    pub fn from_parts(weight_grams: i64, dish_id: Option<i64>, ingredient_id: Option<i64>) -> (r:
        Result<MealComponent, AggregationError>)
        requires
            weight_grams <= MAX_GRAMS,
        ensures
            r == from_parts_spec(weight_grams, dish_id, ingredient_id),
            r matches Ok(c) ==> c.wf(),
    {
        match (dish_id, ingredient_id) {
            (None, None) => Err(AggregationError::MissingComponentReference),
            (Some(_), Some(_)) => Err(AggregationError::ConflictingComponentReference),
            (Some(id), None) => MealComponent::dish(id, weight_grams),
            (None, Some(id)) => MealComponent::ingredient(id, weight_grams),
        }
    }
}

/// What `MealComponent::from_parts` returns for each raw record.
pub open spec fn from_parts_spec(
    weight_grams: i64,
    dish_id: Option<i64>,
    ingredient_id: Option<i64>,
) -> Result<MealComponent, AggregationError> {
    match (dish_id, ingredient_id) {
        (Option::None, Option::None) => Err(AggregationError::MissingComponentReference),
        (Option::Some(_), Option::Some(_)) => Err(AggregationError::ConflictingComponentReference),
        (Option::Some(id), Option::None) => if weight_grams <= 0 {
            Err(AggregationError::InvalidWeight(weight_grams))
        } else {
            Ok(MealComponent::DishConsumption { dish_id: id, weight_grams })
        },
        (Option::None, Option::Some(id)) => if weight_grams <= 0 {
            Err(AggregationError::InvalidWeight(weight_grams))
        } else {
            Ok(MealComponent::IngredientConsumption { ingredient_id: id, weight_grams })
        },
    }
}

/// One ingredient the persistence collaborator knows: its id and its
/// per-100g profile.
#[derive(Clone, Copy, Debug, PartialEq, Eq, Structural)]
pub struct IngredientRecord {
    pub id: i64,
    pub profile: NutrientProfile,
}

impl IngredientRecord {
    pub open spec fn wf(self) -> bool {
        self.profile.wf()
    }
}

/// One dish the persistence collaborator knows: its id and its raw
/// composition.
#[derive(Debug)]
pub struct DishRecord {
    pub id: i64,
    pub composition: DishComposition,
}

impl DishRecord {
    pub open spec fn wf(self) -> bool {
        self.composition.wf()
    }
}

/// Every record of an ingredient catalog is well-formed.
pub open spec fn wf_ingredient_catalog(cat: Seq<IngredientRecord>) -> bool {
    forall|i: int| 0 <= i < cat.len() ==> #[trigger] cat[i].wf()
}

/// Every record of a dish catalog is well-formed.
pub open spec fn wf_dish_catalog(cat: Seq<DishRecord>) -> bool {
    forall|i: int| 0 <= i < cat.len() ==> #[trigger] cat[i].wf()
}

/// The profile of the first catalog record with the given id, if any.
pub open spec fn find_profile(cat: Seq<IngredientRecord>, id: i64) -> Option<NutrientProfile>
    decreases cat.len(),
{
    if cat.len() == 0 {
        None
    } else if cat[0].id == id {
        Some(cat[0].profile)
    } else {
        find_profile(cat.drop_first(), id)
    }
}

/// The composition of the first catalog record with the given id, if any.
pub open spec fn find_composition(cat: Seq<DishRecord>, id: i64) -> Option<DishComposition>
    decreases cat.len(),
{
    if cat.len() == 0 {
        None
    } else if cat[0].id == id {
        Some(cat[0].composition)
    } else {
        find_composition(cat.drop_first(), id)
    }
}

/// A profile found in a well-formed catalog is well-formed.
pub proof fn lemma_found_profile_wf(cat: Seq<IngredientRecord>, id: i64)
    requires
        wf_ingredient_catalog(cat),
        find_profile(cat, id) is Some,
    ensures
        find_profile(cat, id)->Some_0.wf(),
    decreases cat.len(),
{
    if cat.len() == 0 {
    } else if cat[0].id == id {
        assert(cat[0].wf());
    } else {
        assert(wf_ingredient_catalog(cat.drop_first())) by {
            assert(forall|i: int|
                0 <= i < cat.drop_first().len() ==> cat.drop_first()[i] == cat[i + 1]);
        }
        lemma_found_profile_wf(cat.drop_first(), id);
    }
}

/// A composition found in a well-formed catalog is well-formed.
pub proof fn lemma_found_composition_wf(cat: Seq<DishRecord>, id: i64)
    requires
        wf_dish_catalog(cat),
        find_composition(cat, id) is Some,
    ensures
        find_composition(cat, id)->Some_0.wf(),
    decreases cat.len(),
{
    if cat.len() == 0 {
    } else if cat[0].id == id {
        assert(cat[0].wf());
    } else {
        assert(wf_dish_catalog(cat.drop_first())) by {
            assert(forall|i: int|
                0 <= i < cat.drop_first().len() ==> cat.drop_first()[i] == cat[i + 1]);
        }
        lemma_found_composition_wf(cat.drop_first(), id);
    }
}

/// Linear search for an ingredient's profile.
fn find_ingredient(catalog: &Vec<IngredientRecord>, id: i64) -> (r: Option<NutrientProfile>)
    ensures
        r == find_profile(catalog@, id),
{
    let n = catalog.len();
    proof {
        assert(catalog@.skip(0) =~= catalog@);
    }
    for i in 0..n
        invariant
            n == catalog@.len(),
            find_profile(catalog@, id) == find_profile(catalog@.skip(i as int), id),
    {
        proof {
            assert(catalog@.skip(i as int)[0] == catalog@[i as int]);
            assert(catalog@.skip(i as int).drop_first() =~= catalog@.skip(i + 1));
        }
        if catalog[i].id == id {
            return Some(catalog[i].profile);
        }
    }
    None
}

/// Linear search for a dish's composition.
fn find_dish<'a>(catalog: &'a Vec<DishRecord>, id: i64) -> (r: Option<&'a DishComposition>)
    ensures
        match r {
            Option::Some(c) => find_composition(catalog@, id) == Some(*c),
            Option::None => find_composition(catalog@, id) is None,
        },
{
    let n = catalog.len();
    proof {
        assert(catalog@.skip(0) =~= catalog@);
    }
    for i in 0..n
        invariant
            n == catalog@.len(),
            find_composition(catalog@, id) == find_composition(catalog@.skip(i as int), id),
    {
        proof {
            assert(catalog@.skip(i as int)[0] == catalog@[i as int]);
            assert(catalog@.skip(i as int).drop_first() =~= catalog@.skip(i + 1));
        }
        if catalog[i].id == id {
            return Some(&catalog[i].composition);
        }
    }
    None
}

/// What resolving one component against the two catalogs yields: the
/// referenced profile or composition is looked up first — a missing
/// reference fails with `UnknownReference` before any arithmetic — and
/// the found data is routed through the density calculation and the
/// exact scaler.
pub open spec fn resolve_spec(
    c: MealComponent,
    ingredients: Seq<IngredientRecord>,
    dishes: Seq<DishRecord>,
) -> Result<ComputedAmount, AggregationError> {
    match c {
        MealComponent::IngredientConsumption { ingredient_id, weight_grams } => match find_profile(
            ingredients,
            ingredient_id,
        ) {
            Option::None => Err(AggregationError::UnknownReference(ingredient_id)),
            Option::Some(p) => scale_spec(profile_density_spec(p), weight_grams),
        },
        MealComponent::DishConsumption { dish_id, weight_grams } => match find_composition(
            dishes,
            dish_id,
        ) {
            Option::None => Err(AggregationError::UnknownReference(dish_id)),
            Option::Some(comp) => scale_spec(
                density_spec(comp.items@, comp.declared_total_weight),
                weight_grams,
            ),
        },
    }
}

/// Whether the id a component references exists in the catalogs.
pub open spec fn reference_known(
    c: MealComponent,
    ingredients: Seq<IngredientRecord>,
    dishes: Seq<DishRecord>,
) -> bool {
    match c {
        MealComponent::IngredientConsumption { ingredient_id, .. } => find_profile(
            ingredients,
            ingredient_id,
        ) is Some,
        MealComponent::DishConsumption { dish_id, .. } => find_composition(
            dishes,
            dish_id,
        ) is Some,
    }
}

/// Resolves one meal component to its absolute nutrient amounts: an
/// ingredient consumption scales the ingredient's own profile, a dish
/// consumption scales the dish's computed density. Succeeds exactly when
/// the referenced id exists; a pure function of its inputs, with no
/// state beyond the read-only catalogs.
pub fn resolve(
    component: &MealComponent,
    ingredients: &Vec<IngredientRecord>,
    dishes: &Vec<DishRecord>,
) -> (r: Result<ComputedAmount, AggregationError>)
    requires
        component.wf(),
        wf_ingredient_catalog(ingredients@),
        wf_dish_catalog(dishes@),
    ensures
        r == resolve_spec(*component, ingredients@, dishes@),
        r is Ok <==> reference_known(*component, ingredients@, dishes@),
{
    match component {
        MealComponent::IngredientConsumption { ingredient_id, weight_grams } => {
            match find_ingredient(ingredients, *ingredient_id) {
                None => Err(AggregationError::UnknownReference(*ingredient_id)),
                Some(p) => {
                    proof {
                        lemma_found_profile_wf(ingredients@, *ingredient_id);
                    }
                    let d = profile_density(&p);
                    scale(&d, *weight_grams)
                },
            }
        },
        MealComponent::DishConsumption { dish_id, weight_grams } => {
            match find_dish(dishes, *dish_id) {
                None => Err(AggregationError::UnknownReference(*dish_id)),
                Some(comp) => {
                    proof {
                        lemma_found_composition_wf(dishes@, *dish_id);
                    }
                    let d = density(&comp.items, comp.declared_total_weight);
                    scale(&d, *weight_grams)
                },
            }
        },
    }
}

/// Resolution has no hidden state: any two results that satisfy
/// `resolve`'s contract for identical inputs are identical.
pub proof fn lemma_resolve_deterministic(
    c: MealComponent,
    ingredients: Seq<IngredientRecord>,
    dishes: Seq<DishRecord>,
    r1: Result<ComputedAmount, AggregationError>,
    r2: Result<ComputedAmount, AggregationError>,
)
    requires
        r1 == resolve_spec(c, ingredients, dishes),
        r2 == resolve_spec(c, ingredients, dishes),
    ensures
        r1 == r2,
{
}

} // verus!
