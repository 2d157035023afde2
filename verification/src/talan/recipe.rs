//! Recipes as the crafting engine uses them.
use vstd::prelude::*;
use crate::text::{chars_of, lowercase, lowercase_chars};
use crate::xivapi::{ApiRecipe, ItemIngredient};

verus! {

/// One ingredient of a recipe and how many of it the recipe takes.
#[derive(Clone, PartialEq, Debug, Default)]
pub struct RecipeMaterial {
    pub id: u32,
    pub count: u32,
    pub name: String,
}

/// A recipe: its requirements, its ingredients and where it stands in the
/// game's search results.
#[derive(Clone, PartialEq, Debug, Default)]
pub struct Recipe {
    pub durability: u32,
    pub difficulty: u32,
    pub quality: u32,
    pub result_amount: u32,
    pub level: u32,
    pub specialist: bool,
    pub id: u32,
    pub index: usize,
    pub job: u32,
    pub mats: Vec<RecipeMaterial>,
    pub name: String,
}

} // verus!

verus! {

/// Whether `a` and `b` hold the same text.
pub fn chars_eq(a: &Vec<char>, b: &Vec<char>) -> (r: bool)
    ensures
        r == (a@ == b@),
{
    if a.len() != b.len() {
        return false;
    }
    let mut i: usize = 0;
    while i < a.len()
        invariant
            i <= a.len() == b.len(),
            a@.take(i as int) == b@.take(i as int),
        decreases a.len() - i,
    {
        if a[i] != b[i] {
            return false;
        }
        assert(a@.take(i + 1) =~= b@.take(i + 1));
        i += 1;
    }
    assert(a@ =~= a@.take(a.len() as int));
    assert(b@ =~= b@.take(b.len() as int));
    true
}

/// A material as plain values: id, count and name.
pub open spec fn material_view(m: RecipeMaterial) -> (u32, u32, Seq<char>) {
    (m.id, m.count, m.name@)
}

/// The materials of a recipe as plain values.
pub open spec fn materials_view(v: Seq<RecipeMaterial>) -> Seq<(u32, u32, Seq<char>)> {
    Seq::new(v.len(), |i: int| material_view(v[i]))
}

/// The six ingredient slots of a recipe with their amounts.
pub open spec fn ingredient_slots(item: ApiRecipe) -> Seq<(Option<ItemIngredient>, u32)> {
    seq![
        (item.ItemIngredient0, item.AmountIngredient0),
        (item.ItemIngredient1, item.AmountIngredient1),
        (item.ItemIngredient2, item.AmountIngredient2),
        (item.ItemIngredient3, item.AmountIngredient3),
        (item.ItemIngredient4, item.AmountIngredient4),
        (item.ItemIngredient5, item.AmountIngredient5),
    ]
}

/// The materials of the filled slots, in slot order.
pub open spec fn slot_materials(slots: Seq<(Option<ItemIngredient>, u32)>) -> Seq<(u32, u32, Seq<char>)>
    decreases slots.len(),
{
    if slots.len() == 0 {
        Seq::empty()
    } else {
        let rest = slot_materials(slots.drop_last());
        match slots.last().0 {
            Some(mat) => rest.push((mat.ID, slots.last().1, mat.Name@)),
            None => rest,
        }
    }
}

/// Whether scaling the base values of `item` by its factors fits a `u32`.
pub open spec fn factors_fit(item: ApiRecipe) -> bool {
    &&& item.RecipeLevelTable.Durability * item.DurabilityFactor <= u32::MAX
    &&& item.RecipeLevelTable.Difficulty * item.DifficultyFactor <= u32::MAX
    &&& item.RecipeLevelTable.Quality * item.QualityFactor <= u32::MAX
}

/// Whether `r` is the recipe that `item` describes, listed at `index`:
/// durability, difficulty and quality are the base values scaled by their
/// factors in percent, and the materials are the filled ingredient slots.
pub open spec fn recipe_from_api(r: Recipe, item: ApiRecipe, index: int) -> bool {
    &&& r.level == item.RecipeLevelTable.ClassJobLevel
    &&& r.durability == (item.RecipeLevelTable.Durability * item.DurabilityFactor) / 100
    &&& r.difficulty == (item.RecipeLevelTable.Difficulty * item.DifficultyFactor) / 100
    &&& r.quality == (item.RecipeLevelTable.Quality * item.QualityFactor) / 100
    &&& r.result_amount == item.AmountResult
    &&& r.id == item.ID
    &&& r.name@ == item.Name@
    &&& r.specialist == (item.IsSpecializationRequired == 1)
    &&& r.job == item.CraftType.ID
    &&& r.index == index
    &&& materials_view(r.mats@) == slot_materials(ingredient_slots(item))
}

/// A recipe converted from XIVApi asks for a specialist exactly when XIVApi
/// marks it as requiring specialization, and keeps its identity: its name,
/// id, job and level are XIVApi's.
pub proof fn lemma_conversion_keeps_recipe(r: Recipe, item: ApiRecipe, index: int)
    requires
        recipe_from_api(r, item, index),
    ensures
        r.specialist <==> item.IsSpecializationRequired == 1,
        r.name@ == item.Name@,
        r.id == item.ID,
        r.job == item.CraftType.ID,
        r.level == item.RecipeLevelTable.ClassJobLevel,
        r.index == index,
{
}

/// Whether `item` is what a search for `name` (by `job`, where given) asks
/// for, among `count` results: the names agree without case, and the job
/// agrees unless there is only one result or no job is given.
pub open spec fn recipe_wanted(item: ApiRecipe, name: Seq<char>, job: Option<u32>, count: nat) -> bool {
    &&& lowercase(item.Name@) == lowercase(name)
    &&& (count == 1 || job is None || job == Some(item.CraftType.ID))
}

/// Whether `i` is the first result that a search wants.
pub open spec fn first_wanted(results: Seq<ApiRecipe>, name: Seq<char>, job: Option<u32>, i: int) -> bool {
    &&& 0 <= i < results.len()
    &&& recipe_wanted(results[i], name, job, results.len())
    &&& forall|j: int| 0 <= j < i ==> !recipe_wanted(#[trigger] results[j], name, job, results.len())
}

proof fn lemma_slot_step(slots: Seq<(Option<ItemIngredient>, u32)>, k: int)
    requires
        1 <= k <= slots.len(),
    ensures
        slot_materials(slots.take(k)) == match slots[k - 1].0 {
            Some(mat) => slot_materials(slots.take(k - 1)).push((mat.ID, slots[k - 1].1, mat.Name@)),
            None => slot_materials(slots.take(k - 1)),
        },
{
    assert(slots.take(k).drop_last() == slots.take(k - 1));
    assert(slots.take(k).last() == slots[k - 1]);
}

/// Appends the material of a filled slot.
fn push_slot(mats: &mut Vec<RecipeMaterial>, slot: &Option<ItemIngredient>, count: u32)
    ensures
        materials_view(final(mats)@) == match *slot {
            Some(mat) => materials_view(old(mats)@).push((mat.ID, count, mat.Name@)),
            None => materials_view(old(mats)@),
        },
{
    if let Some(mat) = slot {
        let ghost before = mats@;
        mats.push(RecipeMaterial { id: mat.ID, name: mat.Name.clone(), count });
        assert(materials_view(mats@) =~= materials_view(before).push((mat.ID, count, mat.Name@)));
    }
}

impl Recipe {
    /// The recipe that XIVApi's `item` describes.
    pub fn from(item: &ApiRecipe) -> (r: Recipe)
        requires
            factors_fit(*item),
        ensures
            recipe_from_api(r, *item, 0),
    {
        let mut mats: Vec<RecipeMaterial> = Vec::new();
        let ghost slots = ingredient_slots(*item);
        assert(materials_view(mats@) =~= slot_materials(slots.take(0)));
        push_slot(&mut mats, &item.ItemIngredient0, item.AmountIngredient0);
        proof { lemma_slot_step(slots, 1); }
        push_slot(&mut mats, &item.ItemIngredient1, item.AmountIngredient1);
        proof { lemma_slot_step(slots, 2); }
        push_slot(&mut mats, &item.ItemIngredient2, item.AmountIngredient2);
        proof { lemma_slot_step(slots, 3); }
        push_slot(&mut mats, &item.ItemIngredient3, item.AmountIngredient3);
        proof { lemma_slot_step(slots, 4); }
        push_slot(&mut mats, &item.ItemIngredient4, item.AmountIngredient4);
        proof { lemma_slot_step(slots, 5); }
        push_slot(&mut mats, &item.ItemIngredient5, item.AmountIngredient5);
        proof { lemma_slot_step(slots, 6); }
        assert(slots.take(6) == slots);
        Recipe {
            level: item.RecipeLevelTable.ClassJobLevel,
            durability: (item.RecipeLevelTable.Durability * item.DurabilityFactor) / 100,
            difficulty: (item.RecipeLevelTable.Difficulty * item.DifficultyFactor) / 100,
            quality: (item.RecipeLevelTable.Quality * item.QualityFactor) / 100,
            result_amount: item.AmountResult,
            id: item.ID,
            name: item.Name.clone(),
            specialist: item.IsSpecializationRequired == 1,
            job: item.CraftType.ID,
            index: 0,
            mats,
        }
    }

    /// Picks, from XIVApi's search `results`, the recipe for `name` (and
    /// `job`, where given): the first result whose name agrees without case
    /// and whose job agrees, the job being ignored where there is a single
    /// result. The recipe remembers its position in the results.
    pub fn filter(results: &[ApiRecipe], name: &str, job: Option<u32>) -> (r: Option<Recipe>)
        requires
            forall|i: int| first_wanted(results@, name@, job, i) ==> factors_fit(#[trigger] results@[i]),
        ensures
            match r {
                Some(rec) => exists|i: int|
                    first_wanted(results@, name@, job, i) && recipe_from_api(rec, #[trigger] results@[i], i),
                None => forall|i: int|
                    0 <= i < results@.len() ==> !recipe_wanted(#[trigger] results@[i], name@, job, results@.len()),
            },
    {
        let wanted = lowercase_chars(&chars_of(name));
        let mut search_index: usize = 0;
        while search_index < results.len()
            invariant
                search_index <= results@.len(),
                wanted@ == lowercase(name@),
                forall|i: int| first_wanted(results@, name@, job, i) ==> factors_fit(#[trigger] results@[i]),
                forall|j: int| 0 <= j < search_index ==> !recipe_wanted(#[trigger] results@[j], name@, job, results@.len()),
            decreases results@.len() - search_index,
        {
            let recipe = &results[search_index];
            let lower = lowercase_chars(&chars_of(recipe.Name.as_str()));
            let job_ok = match job {
                None => true,
                Some(j) => j == recipe.CraftType.ID,
            };
            if chars_eq(&lower, &wanted) && (results.len() == 1 || job_ok) {
                assert(first_wanted(results@, name@, job, search_index as int));
                let mut r = Recipe::from(recipe);
                r.index = search_index;
                return Some(r);
            }
            search_index += 1;
        }
        None
    }
}

proof fn lemma_u32_product(x: u32, y: u32)
    ensures
        x * y <= u64::MAX,
{
    assert(x * y <= 0xffff_ffff * 0xffff_ffff) by (nonlinear_arith)
        requires
            x <= 0xffff_ffff,
            y <= 0xffff_ffff,
    ;
}

/// Whether scaling the base values of `item` by its factors fits a `u32`,
/// computed.
pub fn factors_fit_exec(item: &ApiRecipe) -> (r: bool)
    ensures
        r == factors_fit(*item),
{
    let t = &item.RecipeLevelTable;
    proof {
        lemma_u32_product(t.Durability, item.DurabilityFactor);
        lemma_u32_product(t.Difficulty, item.DifficultyFactor);
        lemma_u32_product(t.Quality, item.QualityFactor);
    }
    let a = (t.Durability as u64) * (item.DurabilityFactor as u64);
    let b = (t.Difficulty as u64) * (item.DifficultyFactor as u64);
    let c = (t.Quality as u64) * (item.QualityFactor as u64);
    a <= 4294967295u64 && b <= 4294967295u64 && c <= 4294967295u64
}

/// The position of the first result that a search wants, if any.
pub fn first_wanted_index(results: &[ApiRecipe], name: &str, job: Option<u32>) -> (r: Option<usize>)
    ensures
        match r {
            Some(i) => first_wanted(results@, name@, job, i as int),
            None => forall|i: int|
                0 <= i < results@.len() ==> !recipe_wanted(#[trigger] results@[i], name@, job, results@.len()),
        },
{
    let wanted = lowercase_chars(&chars_of(name));
    let mut i: usize = 0;
    while i < results.len()
        invariant
            i <= results@.len(),
            wanted@ == lowercase(name@),
            forall|j: int| 0 <= j < i ==> !recipe_wanted(#[trigger] results@[j], name@, job, results@.len()),
        decreases results@.len() - i,
    {
        let recipe = &results[i];
        let lower = lowercase_chars(&chars_of(recipe.Name.as_str()));
        let job_ok = match job {
            None => true,
            Some(j) => j == recipe.CraftType.ID,
        };
        if chars_eq(&lower, &wanted) && (results.len() == 1 || job_ok) {
            return Some(i);
        }
        i += 1;
    }
    None
}

impl Recipe {
    /// [`Recipe::filter`], or `None` where the recipe it would pick has
    /// factors that overflow a `u32` once applied.
    pub fn try_filter(results: &[ApiRecipe], name: &str, job: Option<u32>) -> (r: Option<Option<Recipe>>)
        ensures
            match r {
                None => exists|i: int| first_wanted(results@, name@, job, i) && !factors_fit(#[trigger] results@[i]),
                Some(Some(rec)) => exists|i: int|
                    first_wanted(results@, name@, job, i) && recipe_from_api(rec, #[trigger] results@[i], i),
                Some(None) => forall|i: int|
                    0 <= i < results@.len() ==> !recipe_wanted(#[trigger] results@[i], name@, job, results@.len()),
            },
    {
        match first_wanted_index(results, name, job) {
            Some(i) => {
                if !factors_fit_exec(&results[i]) {
                    return None;
                }
                assert forall|k: int| first_wanted(results@, name@, job, k) implies factors_fit(#[trigger] results@[k]) by {
                    if k < i {
                        assert(!recipe_wanted(results@[k], name@, job, results@.len()));
                    } else if k > i {
                        assert(!recipe_wanted(results@[i as int], name@, job, results@.len()));
                    }
                }
                Some(Recipe::filter(results, name, job))
            },
            None => Some(Recipe::filter(results, name, job)),
        }
    }
}

} // verus!
