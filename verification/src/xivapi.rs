//! Recipes as XIVApi describes them, and the order in which the game lists
//! them.
use vstd::prelude::*;
use crate::text::{chars_of, parse_unsigned, parse_unsigned_chars, sub_chars};

verus! {

/// The address of XIVApi's search.
pub const XIVAPI_SEARCH_URL: &'static str = "https://xivapi.com/search";

/// The columns a recipe search asks for, each followed by a comma.
pub const RECIPE_COLUMNS: &'static str = "AmountIngredient0,AmountIngredient1,AmountIngredient2,AmountIngredient3,AmountIngredient4,AmountIngredient5,AmountResult,CraftType.ID,DifficultyFactor,DurabilityFactor,ID,ItemIngredient0,ItemIngredient1,ItemIngredient2,ItemIngredient3,ItemIngredient4,ItemIngredient5,Name,QualityFactor,IsSpecializationRequired,RecipeLevelTable,GameContentLinks,";

/// An ingredient of a recipe.
#[allow(non_snake_case)]
#[derive(Clone, Debug)]
pub struct ItemIngredient {
    pub Name: String,
    pub ID: u32,
}

/// The job a recipe belongs to.
#[allow(non_snake_case)]
#[derive(Clone, Debug)]
pub struct CraftType {
    pub ID: u32,
}

/// The level row of a recipe.
#[allow(non_snake_case)]
#[derive(Clone, Debug)]
pub struct RecipeLevelTable {
    pub ClassJobLevel: u32,
    pub Difficulty: u32,
    pub Durability: u32,
    pub ID: u32,
    pub Quality: u32,
    pub Stars: u32,
    pub SuggestedControl: u32,
    pub SuggestedCraftsmanship: u32,
}

/// Where a recipe appears in the recipe notebook: each entry is a column name
/// (`Recipe{column}`) with the rows it holds, in the order the reply lists
/// them.
#[allow(non_snake_case)]
#[derive(Clone, Debug)]
pub struct GameContentLinks {
    pub RecipeNotebookList: Vec<(String, Vec<u32>)>,
}

/// A recipe as XIVApi describes it.
#[allow(non_snake_case)]
#[derive(Clone, Debug)]
pub struct ApiRecipe {
    pub ID: u32,
    pub Name: String,
    pub CraftType: CraftType,
    pub RecipeLevelTable: RecipeLevelTable,
    pub AmountIngredient0: u32,
    pub AmountIngredient1: u32,
    pub AmountIngredient2: u32,
    pub AmountIngredient3: u32,
    pub AmountIngredient4: u32,
    pub AmountIngredient5: u32,
    pub AmountResult: u32,
    pub DifficultyFactor: u32,
    pub DurabilityFactor: u32,
    pub QualityFactor: u32,
    pub IsSpecializationRequired: u32,
    pub ItemIngredient0: Option<ItemIngredient>,
    pub ItemIngredient1: Option<ItemIngredient>,
    pub ItemIngredient2: Option<ItemIngredient>,
    pub ItemIngredient3: Option<ItemIngredient>,
    pub ItemIngredient4: Option<ItemIngredient>,
    pub ItemIngredient5: Option<ItemIngredient>,
    pub GameContentLinks: Option<GameContentLinks>,
}

/// Why a recipe has no sort key.
#[derive(Debug, PartialEq)]
pub enum KeyError {
    /// The recipe has no notebook links.
    NoGameContentLinks,
    /// The notebook column name is not `Recipe` followed by a number.
    BadColumn,
}

/// The order of two recipes.
#[derive(Debug, PartialEq, Eq, Structural, Clone, Copy)]
pub enum RecipeOrder {
    Less,
    Equal,
    Greater,
}

/// `s` with every leading `Recipe` removed (`str::trim_start_matches`).
pub open spec fn strip_recipe(s: Seq<char>) -> Seq<char>
    decreases s.len(),
{
    if s.len() >= 6 && s[0] == 'R' && s[1] == 'e' && s[2] == 'c' && s[3] == 'i' && s[4] == 'p'
        && s[5] == 'e' {
        strip_recipe(s.skip(6))
    } else {
        s
    }
}

/// Whether the notebook links of `r`, where it has them, name a first column
/// with at least one row.
pub open spec fn links_ok(r: ApiRecipe) -> bool {
    r.GameContentLinks matches Some(l) ==> l.RecipeNotebookList@.len() > 0
        && l.RecipeNotebookList@[0].1@.len() > 0
}

/// Whether the notebook links of `r` can be read for a sort key.
pub fn recipe_links_ok(r: &ApiRecipe) -> (b: bool)
    ensures
        b == links_ok(*r),
{
    match &r.GameContentLinks {
        None => true,
        Some(l) => l.RecipeNotebookList.len() > 0 && l.RecipeNotebookList[0].1.len() > 0,
    }
}

/// The key by which the game orders recipes: job, level, stars, notebook row
/// and notebook column; the first notebook entry is the one read.
#[verifier::opaque]
pub open spec fn recipe_key(r: ApiRecipe) -> Result<(u32, u32, u32, u32, u32), KeyError> {
    match r.GameContentLinks {
        None => Err(KeyError::NoGameContentLinks),
        Some(l) => {
            let entry = l.RecipeNotebookList@[0];
            match parse_unsigned(strip_recipe(entry.0@), u32::MAX as nat) {
                None => Err(KeyError::BadColumn),
                Some(column) => Ok(
                    (
                        r.CraftType.ID,
                        r.RecipeLevelTable.ClassJobLevel,
                        r.RecipeLevelTable.Stars,
                        entry.1@[0],
                        column as u32,
                    ),
                ),
            }
        },
    }
}

/// The order of two numbers.
pub open spec fn order_u32(a: u32, b: u32) -> RecipeOrder {
    if a < b {
        RecipeOrder::Less
    } else if a == b {
        RecipeOrder::Equal
    } else {
        RecipeOrder::Greater
    }
}

/// The lexicographic order of two keys.
pub open spec fn order_keys(a: (u32, u32, u32, u32, u32), b: (u32, u32, u32, u32, u32)) -> RecipeOrder {
    if a.0 != b.0 {
        order_u32(a.0, b.0)
    } else if a.1 != b.1 {
        order_u32(a.1, b.1)
    } else if a.2 != b.2 {
        order_u32(a.2, b.2)
    } else if a.3 != b.3 {
        order_u32(a.3, b.3)
    } else {
        order_u32(a.4, b.4)
    }
}

/// The order of two recipes where both have a key.
pub open spec fn recipe_partial_order(a: ApiRecipe, b: ApiRecipe) -> Option<RecipeOrder> {
    match (recipe_key(a), recipe_key(b)) {
        (Ok(ka), Ok(kb)) => Some(order_keys(ka, kb)),
        _ => None,
    }
}

/// The order of two recipes: by key where both have one, else by job.
#[verifier::opaque]
pub open spec fn recipe_order(a: ApiRecipe, b: ApiRecipe) -> RecipeOrder {
    match recipe_partial_order(a, b) {
        Some(o) => o,
        None => order_u32(a.CraftType.ID, b.CraftType.ID),
    }
}

/// `s` with every leading `Recipe` removed.
fn strip_recipe_chars(s: &Vec<char>) -> (r: Vec<char>)
    ensures
        r@ == strip_recipe(s@),
{
    let mut i: usize = 0;
    assert(s@.skip(0) == s@);
    while i <= s.len() && s.len() - i >= 6 && s[i] == 'R' && s[i + 1] == 'e' && s[i + 2] == 'c' && s[i + 3] == 'i'
        && s[i + 4] == 'p' && s[i + 5] == 'e'
        invariant
            i <= s.len(),
            strip_recipe(s@) == strip_recipe(s@.skip(i as int)),
        decreases s.len() - i,
    {
        assert(s@.skip(i as int).skip(6) == s@.skip(i + 6));
        i += 6;
    }
    let r = sub_chars(s, i, s.len());
    assert(s@.subrange(i as int, s.len() as int) == s@.skip(i as int));
    r
}

/// The order of two numbers, computed.
fn order_of(a: u32, b: u32) -> (r: RecipeOrder)
    ensures
        r == order_u32(a, b),
{
    if a < b {
        RecipeOrder::Less
    } else if a == b {
        RecipeOrder::Equal
    } else {
        RecipeOrder::Greater
    }
}

impl ApiRecipe {
    /// The key by which the game orders recipes.
    pub fn key(&self) -> (r: Result<(u32, u32, u32, u32, u32), KeyError>)
        requires
            links_ok(*self),
        ensures
            r == recipe_key(*self),
    {
        reveal(recipe_key);
        let links = match &self.GameContentLinks {
            Some(l) => l,
            None => {
                return Err(KeyError::NoGameContentLinks);
            },
        };
        let entry = &links.RecipeNotebookList[0];
        let column_chars = chars_of(entry.0.as_str());
        let stripped = strip_recipe_chars(&column_chars);
        let column = match parse_unsigned_chars(&stripped, 4294967295u64) {
            Some(c) => c as u32,
            None => {
                return Err(KeyError::BadColumn);
            },
        };
        let row = entry.1[0];
        Ok(
            (
                self.CraftType.ID,
                self.RecipeLevelTable.ClassJobLevel,
                self.RecipeLevelTable.Stars,
                row,
                column,
            ),
        )
    }

    /// The order of two recipes where both have a key (`partial_cmp`).
    pub fn partial_compare(&self, other: &ApiRecipe) -> (r: Option<RecipeOrder>)
        requires
            links_ok(*self),
            links_ok(*other),
        ensures
            r == recipe_partial_order(*self, *other),
    {
        let a = match self.key() {
            Ok(k) => k,
            Err(_) => {
                return None;
            },
        };
        let b = match other.key() {
            Ok(k) => k,
            Err(_) => {
                return None;
            },
        };
        let o = if a.0 != b.0 {
            order_of(a.0, b.0)
        } else if a.1 != b.1 {
            order_of(a.1, b.1)
        } else if a.2 != b.2 {
            order_of(a.2, b.2)
        } else if a.3 != b.3 {
            order_of(a.3, b.3)
        } else {
            order_of(a.4, b.4)
        };
        Some(o)
    }

    /// The order of two recipes (`cmp`): by key, falling back on the job.
    pub fn compare(&self, other: &ApiRecipe) -> (r: RecipeOrder)
        requires
            links_ok(*self),
            links_ok(*other),
        ensures
            r == recipe_order(*self, *other),
    {
        reveal(recipe_order);
        match self.partial_compare(other) {
            Some(o) => o,
            None => order_of(self.CraftType.ID, other.CraftType.ID),
        }
    }

    /// Whether two recipes are the same recipe (the same `ID`).
    pub fn same_recipe(&self, other: &ApiRecipe) -> (r: bool)
        ensures
            r == (self.ID == other.ID),
    {
        self.ID == other.ID
    }
}

/// Whether every recipe of `s` has well-formed notebook links.
pub open spec fn all_links_ok(s: Seq<ApiRecipe>) -> bool {
    forall|i: int| 0 <= i < s.len() ==> links_ok(#[trigger] s[i])
}

/// Whether no recipe of `s` comes after the one that follows it.
pub open spec fn adjacent_in_order(s: Seq<ApiRecipe>) -> bool {
    forall|i: int, j: int|
        0 <= i && j == i + 1 && j < s.len() ==> recipe_order(#[trigger] s[i], #[trigger] s[j])
            != RecipeOrder::Greater
}

/// Whether `t` is `s` rearranged by the positions `p` (`t[i]` is `s[p[i]]`,
/// each position of `s` used once), with recipes that compare equal kept in
/// the order they had in `s`.
pub open spec fn stable_arrangement(s: Seq<ApiRecipe>, t: Seq<ApiRecipe>, p: Seq<int>) -> bool {
    &&& p.len() == t.len()
    &&& t.len() == s.len()
    &&& forall|i: int| 0 <= i < p.len() ==> 0 <= #[trigger] p[i] < s.len() && t[i] == s[p[i]]
    &&& forall|i: int, j: int| 0 <= i < j < p.len() ==> #[trigger] p[i] != #[trigger] p[j]
    &&& forall|i: int, j: int|
        0 <= i < j < t.len() && recipe_order(#[trigger] t[i], #[trigger] t[j]) == RecipeOrder::Equal
            ==> p[i] < p[j]
}

/// Whether `t` holds the recipes of `s`, with recipes that compare equal in
/// the order they had in `s` (a stable rearrangement).
pub open spec fn stably_rearranged(s: Seq<ApiRecipe>, t: Seq<ApiRecipe>) -> bool {
    exists|p: Seq<int>| stable_arrangement(s, t, p)
}

/// Swapping the two recipes of a comparison swaps `Less` and `Greater`.
pub proof fn lemma_recipe_order_antisymmetric(a: ApiRecipe, b: ApiRecipe)
    ensures
        recipe_order(a, b) == RecipeOrder::Greater <==> recipe_order(b, a) == RecipeOrder::Less,
        recipe_order(a, b) == RecipeOrder::Equal <==> recipe_order(b, a) == RecipeOrder::Equal,
{
    reveal(recipe_order);
}

/// The key of a recipe reads, in order, its job, its level, its stars and
/// the first row of its first notebook entry.
pub proof fn lemma_key_fields(r: ApiRecipe)
    requires
        recipe_key(r) is Ok,
    ensures
        ({
            let k = recipe_key(r)->Ok_0;
            &&& k.0 == r.CraftType.ID
            &&& k.1 == r.RecipeLevelTable.ClassJobLevel
            &&& k.2 == r.RecipeLevelTable.Stars
            &&& r.GameContentLinks matches Some(l) && k.3 == l.RecipeNotebookList@[0].1@[0]
        }),
{
    reveal(recipe_key);
}

/// Recipes with keys are listed by job first, then by level, then by stars,
/// then by notebook row, then by notebook column: the first of these in
/// which two recipes differ decides, the smaller coming first; recipes that
/// agree in all of them are equal.
pub proof fn lemma_recipe_priority(a: ApiRecipe, b: ApiRecipe)
    requires
        recipe_key(a) is Ok,
        recipe_key(b) is Ok,
    ensures
        ({
            let ka = recipe_key(a)->Ok_0;
            let kb = recipe_key(b)->Ok_0;
            let (ja, jb) = (a.CraftType.ID, b.CraftType.ID);
            let (la, lb) = (a.RecipeLevelTable.ClassJobLevel, b.RecipeLevelTable.ClassJobLevel);
            let (sa, sb) = (a.RecipeLevelTable.Stars, b.RecipeLevelTable.Stars);
            &&& ja < jb ==> recipe_order(a, b) == RecipeOrder::Less
            &&& ja == jb && la < lb ==> recipe_order(a, b) == RecipeOrder::Less
            &&& ja == jb && la == lb && sa < sb ==> recipe_order(a, b) == RecipeOrder::Less
            &&& ja == jb && la == lb && sa == sb && ka.3 < kb.3 ==> recipe_order(a, b) == RecipeOrder::Less
            &&& ja == jb && la == lb && sa == sb && ka.3 == kb.3 && ka.4 < kb.4 ==> recipe_order(a, b)
                == RecipeOrder::Less
            &&& ja == jb && la == lb && sa == sb && ka.3 == kb.3 && ka.4 == kb.4 ==> recipe_order(a, b)
                == RecipeOrder::Equal
        }),
{
    lemma_key_fields(a);
    lemma_key_fields(b);
    reveal(recipe_order);
}

/// Recipes that both have a key are ordered by their keys.
pub proof fn lemma_recipe_order_keyed(a: ApiRecipe, b: ApiRecipe)
    requires
        recipe_key(a) is Ok,
        recipe_key(b) is Ok,
    ensures
        recipe_order(a, b) == order_keys(recipe_key(a)->Ok_0, recipe_key(b)->Ok_0),
{
    reveal(recipe_order);
}

/// Sorts recipes in the order the game lists them, keeping recipes that
/// compare equal in the order they came in.
pub fn sort_recipes(v: &mut Vec<ApiRecipe>)
    requires
        all_links_ok(old(v)@),
    ensures
        final(v)@.to_multiset() == old(v)@.to_multiset(),
        final(v)@.len() == old(v)@.len(),
        all_links_ok(final(v)@),
        adjacent_in_order(final(v)@),
        stably_rearranged(old(v)@, final(v)@),
{
    let n = v.len();
    let ghost orig = v@;
    let ghost mut p: Seq<int> = Seq::new(n as nat, |k: int| k);
    if n == 0 {
        assert(stable_arrangement(orig, v@, p));
        return;
    }
    let mut i: usize = 1;
    while i < n
        invariant
            1 <= i <= n,
            v@.len() == n,
            orig == old(v)@,
            orig.len() == n,
            v@.to_multiset() == old(v)@.to_multiset(),
            all_links_ok(v@),
            p.len() == n,
            forall|k: int| 0 <= k < n ==> 0 <= #[trigger] p[k] < n && v@[k] == orig[p[k]],
            forall|k: int| i <= k < n ==> #[trigger] p[k] == k,
            forall|k: int| 0 <= k < i ==> #[trigger] p[k] < i,
            forall|k: int, l: int| 0 <= k < l < n ==> #[trigger] p[k] != #[trigger] p[l],
            forall|k: int, l: int|
                0 <= k < l < i && recipe_order(#[trigger] v@[k], #[trigger] v@[l]) == RecipeOrder::Equal
                    ==> p[k] < p[l],
            forall|k: int, l: int|
                0 <= k && l == k + 1 && l < i ==> recipe_order(#[trigger] v@[k], #[trigger] v@[l])
                    != RecipeOrder::Greater,
        decreases n - i,
    {
        let ghost before = v@;
        let x = v.remove(i);
        let ghost w = v@;
        assert(w == before.remove(i as int));
        assert(x == before[i as int]);
        assert(links_ok(x));
        assert forall|k: int| 0 <= k < w.len() implies links_ok(#[trigger] w[k]) by {
            if k < i {
                assert(w[k] == before[k]);
            } else {
                assert(w[k] == before[k + 1]);
            }
        }
        let mut j: usize = i;
        while j > 0 && v[j - 1].compare(&x) == RecipeOrder::Greater
            invariant
                0 <= j <= i < n,
                v@ == w,
                w.len() == n - 1,
                all_links_ok(w),
                links_ok(x),
                forall|k: int| j <= k < i ==> recipe_order(#[trigger] w[k], x) == RecipeOrder::Greater,
            decreases j,
        {
            j -= 1;
        }
        v.insert(j, x);
        let ghost u = v@;
        assert(u == w.insert(j as int, x));
        assert(u.to_multiset() =~= before.to_multiset()) by {
            broadcast use vstd::seq_lib::to_multiset_remove, vstd::seq_lib::to_multiset_insert,
                vstd::multiset::group_multiset_axioms, vstd::seq_lib::to_multiset_contains;

            assert(w.to_multiset() == before.to_multiset().remove(x));
            assert(before.contains(x));
            assert(before.to_multiset().count(x) > 0);
        }
        assert forall|k: int| 0 <= k < u.len() implies links_ok(#[trigger] u[k]) by {
            if k < j {
                assert(u[k] == w[k]);
            } else if k > j {
                assert(u[k] == w[k - 1]);
            }
        }
        assert forall|k: int, l: int| 0 <= k && l == k + 1 && l < i + 1 implies recipe_order(
            #[trigger] u[k],
            #[trigger] u[l],
        ) != RecipeOrder::Greater by {
            if k + 1 < j {
                assert(u[k] == w[k] && u[k + 1] == w[k + 1]);
                assert(w[k] == before[k] && w[k + 1] == before[k + 1]);
            } else if k + 1 == j {
                assert(u[k] == w[k] && u[k + 1] == x);
            } else if k == j {
                assert(u[k] == x && u[k + 1] == w[k]);
                lemma_recipe_order_antisymmetric(w[k], x);
            } else {
                assert(u[k] == w[k - 1] && u[k + 1] == w[k]);
                assert(w[k - 1] == before[k - 1] && w[k] == before[k]);
            }
        }
        proof {
            assert forall|k: int| j <= k < i implies recipe_order(#[trigger] before[k], x) == RecipeOrder::Greater by {
                assert(w[k] == before[k]);
            }
            let q = p.remove(i as int).insert(j as int, i as int);
            lemma_insertion_keeps_arrangement(orig, before, u, x, p, q, i as int, j as int);
            p = q;
        }
        i += 1;
    }
    assert(stable_arrangement(orig, v@, p));
}

/// Inserting the recipe at position `i` at position `j` of the ordered
/// prefix, past only recipes that come after it, keeps the arrangement
/// stable.
proof fn lemma_insertion_keeps_arrangement(
    orig: Seq<ApiRecipe>,
    before: Seq<ApiRecipe>,
    u: Seq<ApiRecipe>,
    x: ApiRecipe,
    p: Seq<int>,
    q: Seq<int>,
    i: int,
    j: int,
)
    requires
        0 <= j <= i < before.len(),
        orig.len() == before.len(),
        x == before[i],
        u == before.remove(i).insert(j, x),
        q == p.remove(i).insert(j, i),
        p.len() == before.len(),
        forall|k: int| 0 <= k < before.len() ==> 0 <= #[trigger] p[k] < before.len() && before[k] == orig[p[k]],
        forall|k: int| i <= k < before.len() ==> #[trigger] p[k] == k,
        forall|k: int| 0 <= k < i ==> #[trigger] p[k] < i,
        forall|k: int, l: int| 0 <= k < l < before.len() ==> #[trigger] p[k] != #[trigger] p[l],
        forall|k: int, l: int|
            0 <= k < l < i && recipe_order(#[trigger] before[k], #[trigger] before[l]) == RecipeOrder::Equal
                ==> p[k] < p[l],
        forall|k: int| j <= k < i ==> recipe_order(#[trigger] before[k], x) == RecipeOrder::Greater,
    ensures
        q.len() == before.len(),
        forall|k: int| 0 <= k < before.len() ==> 0 <= #[trigger] q[k] < before.len() && u[k] == orig[q[k]],
        forall|k: int| i + 1 <= k < before.len() ==> #[trigger] q[k] == k,
        forall|k: int| 0 <= k < i + 1 ==> #[trigger] q[k] < i + 1,
        forall|k: int, l: int| 0 <= k < l < before.len() ==> #[trigger] q[k] != #[trigger] q[l],
        forall|k: int, l: int|
            0 <= k < l < i + 1 && recipe_order(#[trigger] u[k], #[trigger] u[l]) == RecipeOrder::Equal
                ==> q[k] < q[l],
{
    let n = before.len() as int;
    // Where each position of `u` and `q` comes from in `before` and `p`.
    assert forall|k: int| 0 <= k < n implies (#[trigger] q[k] == (if k < j {
        p[k]
    } else if k == j {
        i
    } else if k <= i {
        p[k - 1]
    } else {
        p[k]
    }) && u[k] == (if k < j {
        before[k]
    } else if k == j {
        x
    } else if k <= i {
        before[k - 1]
    } else {
        before[k]
    })) by {}
    assert forall|k: int| 0 <= k < n implies 0 <= #[trigger] q[k] < n && u[k] == orig[q[k]] by {
        assert(q[k] == q[k]);
    }
    assert forall|k: int| i + 1 <= k < n implies #[trigger] q[k] == k by {
        assert(q[k] == q[k]);
    }
    assert forall|k: int| 0 <= k < i + 1 implies #[trigger] q[k] < i + 1 by {
        assert(q[k] == q[k]);
    }
    assert forall|k: int, l: int| 0 <= k < l < n implies #[trigger] q[k] != #[trigger] q[l] by {
        let a = if k < j { k } else if k == j { i } else if k <= i { k - 1 } else { k };
        let b = if l < j { l } else if l == j { i } else if l <= i { l - 1 } else { l };
        assert(q[k] == p[a] && q[l] == p[b]);
        assert(a != b);
        if a < b {
            assert(p[a] != p[b]);
        } else {
            assert(p[b] != p[a]);
        }
    }
    assert forall|k: int, l: int|
        0 <= k < l < i + 1 && recipe_order(#[trigger] u[k], #[trigger] u[l]) == RecipeOrder::Equal implies q[k]
        < q[l] by {
        assert(q[k] == q[k] && q[l] == q[l]);
        if k == j {
            assert(u[l] == before[l - 1]);
            lemma_recipe_order_antisymmetric(before[l - 1], x);
        } else if l == j {
            assert(q[k] == p[k]);
        } else {
            let a = if k < j { k } else { k - 1 };
            let b = if l < j { l } else { l - 1 };
            assert(u[k] == before[a] && u[l] == before[b] && q[k] == p[a] && q[l] == p[b]);
        }
    }
}

/// Keys compare as a total order: "not after" is transitive.
pub proof fn lemma_order_keys_transitive(
    a: (u32, u32, u32, u32, u32),
    b: (u32, u32, u32, u32, u32),
    c: (u32, u32, u32, u32, u32),
)
    requires
        order_keys(a, b) != RecipeOrder::Greater,
        order_keys(b, c) != RecipeOrder::Greater,
    ensures
        order_keys(a, c) != RecipeOrder::Greater,
{
}

/// Where every recipe has a key, recipes sorted by [`sort_recipes`] are in
/// order pair by pair, not only neighbour by neighbour.
pub proof fn lemma_sorted_when_keyed(s: Seq<ApiRecipe>)
    requires
        adjacent_in_order(s),
        forall|i: int| 0 <= i < s.len() ==> (#[trigger] recipe_key(s[i])) is Ok,
    ensures
        forall|i: int, j: int|
            0 <= i < j < s.len() ==> recipe_order(#[trigger] s[i], #[trigger] s[j]) != RecipeOrder::Greater,
{
    assert forall|i: int, j: int| 0 <= i < j < s.len() implies recipe_order(
        #[trigger] s[i],
        #[trigger] s[j],
    ) != RecipeOrder::Greater by {
        lemma_sorted_range(s, i, j);
    }
}

proof fn lemma_sorted_range(s: Seq<ApiRecipe>, i: int, j: int)
    requires
        adjacent_in_order(s),
        forall|k: int| 0 <= k < s.len() ==> (#[trigger] recipe_key(s[k])) is Ok,
        0 <= i < j < s.len(),
    ensures
        recipe_order(s[i], s[j]) != RecipeOrder::Greater,
    decreases j - i,
{
    assert(recipe_key(s[i]) is Ok);
    assert(recipe_key(s[j]) is Ok);
    if j > i + 1 {
        lemma_sorted_range(s, i, j - 1);
        assert(recipe_order(s[j - 1], s[j]) != RecipeOrder::Greater) by {
            let a = s[j - 1];
            let b = s[j];
        }
        assert(recipe_key(s[j - 1]) is Ok);
        lemma_recipe_order_keyed(s[i], s[j - 1]);
        lemma_recipe_order_keyed(s[j - 1], s[j]);
        lemma_recipe_order_keyed(s[i], s[j]);
        lemma_order_keys_transitive(recipe_key(s[i])->Ok_0, recipe_key(s[j - 1])->Ok_0, recipe_key(s[j])->Ok_0);
    } else {
        assert(recipe_order(s[i], s[i + 1]) != RecipeOrder::Greater);
    }
}

/// Recipes sorted by [`sort_recipes`], where every one has a key, are
/// grouped by job in increasing order, and within a job by level in
/// increasing order.
pub proof fn lemma_sorted_by_job_then_level(s: Seq<ApiRecipe>)
    requires
        adjacent_in_order(s),
        forall|i: int| 0 <= i < s.len() ==> (#[trigger] recipe_key(s[i])) is Ok,
    ensures
        forall|i: int, j: int|
            0 <= i < j < s.len() ==> (#[trigger] s[i]).CraftType.ID <= (#[trigger] s[j]).CraftType.ID,
        forall|i: int, j: int|
            0 <= i < j < s.len() && (#[trigger] s[i]).CraftType.ID == (#[trigger] s[j]).CraftType.ID
                ==> s[i].RecipeLevelTable.ClassJobLevel <= s[j].RecipeLevelTable.ClassJobLevel,
{
    lemma_sorted_when_keyed(s);
    assert forall|i: int, j: int| 0 <= i < j < s.len() implies (#[trigger] s[i]).CraftType.ID
        <= (#[trigger] s[j]).CraftType.ID by {
        assert(recipe_key(s[i]) is Ok && recipe_key(s[j]) is Ok);
        lemma_recipe_priority(s[j], s[i]);
        lemma_recipe_order_antisymmetric(s[i], s[j]);
    }
    assert forall|i: int, j: int|
        0 <= i < j < s.len() && (#[trigger] s[i]).CraftType.ID == (#[trigger] s[j]).CraftType.ID
            implies s[i].RecipeLevelTable.ClassJobLevel <= s[j].RecipeLevelTable.ClassJobLevel by {
        assert(recipe_key(s[i]) is Ok && recipe_key(s[j]) is Ok);
        lemma_recipe_priority(s[j], s[i]);
        lemma_recipe_order_antisymmetric(s[i], s[j]);
    }
}

} // verus!
