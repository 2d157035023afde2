//! Items and their materials as Garland Tools describes them.
use vstd::prelude::*;
use url::form_urlencoded::Serializer;
use crate::text::{chars_of, digits_in_base, parse_unsigned, parse_unsigned_chars, push_digits, push_str};

verus! {

/// One entry of an item search.
#[derive(Debug, Clone)]
pub struct JsonItemSearchResult {
    pub id: String,
}

/// An item document.
#[derive(Debug, Clone)]
pub struct JsonItem {
    pub item: JsonItemData,
    pub ingredients: Vec<JsonItemIngredient>,
}

/// The item itself.
#[derive(Debug, Clone)]
pub struct JsonItemData {
    pub name: String,
    pub id: u64,
    pub craft: Vec<JsonCraft>,
}

/// An ingredient's name.
#[derive(Debug, Clone)]
pub struct JsonItemIngredient {
    pub id: u64,
    pub name: String,
}

/// A way to craft the item.
#[derive(Debug, Clone)]
pub struct JsonCraft {
    pub job: u64,
    pub quality: u64,
    pub progress: u64,
    pub ingredients: Vec<JsonCraftIngredient>,
}

/// An ingredient of a craft and how many of it.
#[derive(Debug, Clone)]
pub struct JsonCraftIngredient {
    pub id: u64,
    pub amount: u64,
    pub quality: Option<u64>,
}

/// An item and the materials it is crafted from.
#[derive(Debug)]
pub struct Item {
    pub name: String,
    pub materials: Vec<Material>,
}

/// A material and how many of it.
#[derive(Debug)]
pub struct Material {
    pub id: u64,
    pub name: String,
    pub count: u64,
}

/// Why an item could not be looked up.
#[derive(Debug, PartialEq)]
pub enum GarlandError {
    /// No item of that name.
    NotFound(String),
    /// The id found is not a number.
    BadId(String),
}

/// The name listed for ingredient `id`: the last entry with that id, or the
/// empty text where there is none.
pub open spec fn ingredient_name(ings: Seq<JsonItemIngredient>, id: u64) -> Seq<char>
    decreases ings.len(),
{
    if ings.len() == 0 {
        Seq::empty()
    } else if ings.last().id == id {
        ings.last().name@
    } else {
        ingredient_name(ings.drop_last(), id)
    }
}

/// The materials of a craft: its ingredients but shards, crystals and
/// clusters (ids up to 19), each named from the ingredient list.
pub open spec fn craft_materials(craft: Seq<JsonCraftIngredient>, ings: Seq<JsonItemIngredient>) -> Seq<
    (u64, u64, Seq<char>),
>
    decreases craft.len(),
{
    if craft.len() == 0 {
        Seq::empty()
    } else {
        let rest = craft_materials(craft.drop_last(), ings);
        let c = craft.last();
        if c.id <= 19 {
            rest
        } else {
            rest.push((c.id, c.amount, ingredient_name(ings, c.id)))
        }
    }
}

/// The materials of an item as plain values: id, count, name.
pub open spec fn materials_view(v: Seq<Material>) -> Seq<(u64, u64, Seq<char>)> {
    Seq::new(v.len(), |i: int| (v[i].id, v[i].count, v[i].name@))
}

/// The name listed for ingredient `id`.
fn name_of_ingredient(ings: &Vec<JsonItemIngredient>, id: u64) -> (r: String)
    ensures
        r@ == ingredient_name(ings@, id),
{
    let mut name = String::new();
    let mut j: usize = 0;
    while j < ings.len()
        invariant
            j <= ings@.len(),
            name@ == ingredient_name(ings@.take(j as int), id),
        decreases ings@.len() - j,
    {
        assert(ings@.take(j + 1).drop_last() == ings@.take(j as int));
        if ings[j].id == id {
            name = ings[j].name.clone();
        }
        j += 1;
    }
    assert(ings@.take(ings@.len() as int) == ings@);
    name
}

impl Item {
    /// The item a Garland document describes, with the materials of its
    /// first craft.
    pub fn from(json_item: JsonItem) -> (r: Item)
        requires
            json_item.item.craft@.len() > 0,
        ensures
            r.name@ == json_item.item.name@,
            materials_view(r.materials@) == craft_materials(
                json_item.item.craft@[0].ingredients@,
                json_item.ingredients@,
            ),
    {
        let craft = &json_item.item.craft[0].ingredients;
        let mut v: Vec<Material> = Vec::new();
        let mut i: usize = 0;
        while i < craft.len()
            invariant
                i <= craft@.len(),
                *craft == json_item.item.craft@[0].ingredients,
                materials_view(v@) == craft_materials(craft@.take(i as int), json_item.ingredients@),
            decreases craft@.len() - i,
        {
            let craft_item = &craft[i];
            assert(craft@.take(i + 1).drop_last() == craft@.take(i as int));
            assert(craft@.take(i + 1).last() == *craft_item);
            if craft_item.id > 19 {
                let name = name_of_ingredient(&json_item.ingredients, craft_item.id);
                let ghost before = v@;
                v.push(Material { id: craft_item.id, count: craft_item.amount, name });
                assert(materials_view(v@) =~= materials_view(before).push(
                    (craft_item.id, craft_item.amount, ingredient_name(json_item.ingredients@, craft_item.id)),
                ));
            }
            i += 1;
        }
        assert(craft@.take(craft@.len() as int) == craft@);
        Item { name: json_item.item.name, materials: v }
    }
}

/// The ingredient lines of a Garland document, the first `k` of them:
/// `\t\t {amount}x {name} (id: {id})` each, the amount taken from the craft
/// ingredient at the same position.
pub open spec fn ingredient_lines(ings: Seq<JsonItemIngredient>, craft: Seq<JsonCraftIngredient>, k: int) -> Seq<
    char,
>
    decreases k,
{
    if k <= 0 {
        Seq::empty()
    } else {
        ingredient_lines(ings, craft, k - 1) + "\t\t "@ + digits_in_base(craft[k - 1].amount as nat, 10)
            + "x "@ + ings[k - 1].name@ + " (id: "@ + digits_in_base(ings[k - 1].id as nat, 10) + ")\n"@
    }
}

/// Whether every listed ingredient has a craft ingredient at its position.
pub open spec fn craft_covers(item: JsonItem) -> bool {
    item.item.craft@.len() > 0 && item.item.craft@[0].ingredients@.len() >= item.ingredients@.len()
}

/// Whether every listed ingredient of `item` has a craft ingredient at its
/// position.
pub fn craft_covers_ingredients(item: &JsonItem) -> (r: bool)
    ensures
        r == craft_covers(*item),
{
    item.item.craft.len() > 0 && item.item.craft[0].ingredients.len() >= item.ingredients.len()
}

/// Appends the ingredient lines of `item`.
pub fn push_ingredient_lines(s: &mut String, item: &JsonItem)
    requires
        craft_covers(*item),
    ensures
        final(s)@ == old(s)@ + ingredient_lines(
            item.ingredients@,
            item.item.craft@[0].ingredients@,
            item.ingredients@.len() as int,
        ),
{
    let ghost ings = item.ingredients@;
    let ghost craft = item.item.craft@[0].ingredients@;
    let mut i: usize = 0;
    while i < item.ingredients.len()
        invariant
            i <= ings.len(),
            ings == item.ingredients@,
            craft == item.item.craft@[0].ingredients@,
            craft_covers(*item),
            s@ == old(s)@ + ingredient_lines(ings, craft, i as int),
        decreases ings.len() - i,
    {
        let elem = &item.ingredients[i];
        push_str(s, "\t\t ");
        push_digits(s, item.item.craft[0].ingredients[i].amount, 10);
        push_str(s, "x ");
        push_str(s, elem.name.as_str());
        push_str(s, " (id: ");
        push_digits(s, elem.id, 10);
        push_str(s, ")\n");
        assert(s@ =~= old(s)@ + ingredient_lines(ings, craft, i + 1));
        i += 1;
    }
}

impl JsonItem {
    /// The document shown for debugging: name, id and ingredient lines
    /// between braces (the id and the ingredients' header end no line).
    pub fn to_display_string(&self) -> (s: String)
        requires
            craft_covers(*self),
        ensures
            s@ == "item {\n\tname: "@ + self.item.name@ + "\n\tid:   "@ + digits_in_base(self.item.id as nat, 10)
                + "\tingredients; {"@ + ingredient_lines(
                self.ingredients@,
                self.item.craft@[0].ingredients@,
                self.ingredients@.len() as int,
            ) + "\t}\n}\n"@,
    {
        let mut s = "item {\n\tname: ".to_string();
        push_str(&mut s, self.item.name.as_str());
        push_str(&mut s, "\n\tid:   ");
        push_digits(&mut s, self.item.id, 10);
        push_str(&mut s, "\tingredients; {");
        push_ingredient_lines(&mut s, self);
        push_str(&mut s, "\t}\n}\n");
        s
    }
}

/// The text shown for materials `ms`: `  {count}x {name}` per line.
pub open spec fn material_lines(ms: Seq<(u64, u64, Seq<char>)>) -> Seq<char>
    decreases ms.len(),
{
    if ms.len() == 0 {
        Seq::empty()
    } else {
        let m = ms.last();
        material_lines(ms.drop_last()) + "  "@ + digits_in_base(m.1 as nat, 10) + "x "@ + m.2 + "\n"@
    }
}

impl Item {
    /// The text shown for the item: its name, then its materials between
    /// brackets, one per line.
    pub fn to_display_string(&self) -> (s: String)
        ensures
            s@ == self.name@ + "\n[\n"@ + material_lines(materials_view(self.materials@)) + "]\n"@,
    {
        let mut s = self.name.clone();
        push_str(&mut s, "\n[\n");
        let ghost head = s@;
        let mut i: usize = 0;
        while i < self.materials.len()
            invariant
                i <= self.materials@.len(),
                s@ == head + material_lines(materials_view(self.materials@).take(i as int)),
            decreases self.materials@.len() - i,
        {
            let m = &self.materials[i];
            push_str(&mut s, "  ");
            push_digits(&mut s, m.count, 10);
            push_str(&mut s, "x ");
            push_str(&mut s, m.name.as_str());
            push_str(&mut s, "\n");
            let ghost t = materials_view(self.materials@).take(i + 1);
            assert(t.drop_last() == materials_view(self.materials@).take(i as int));
            assert(t.last() == (m.id, m.count, m.name@));
            assert(s@ =~= head + material_lines(t));
            i += 1;
        }
        assert(materials_view(self.materials@).take(self.materials@.len() as int) == materials_view(self.materials@));
        push_str(&mut s, "]\n");
        s
    }
}

/// The id of the first search result, read as a number.
pub fn item_id_from_results(item_name: &str, items: &[JsonItemSearchResult]) -> (r: Result<
    Option<u64>,
    GarlandError,
>)
    ensures
        items@.len() == 0 ==> (r matches Err(GarlandError::NotFound(n)) && n@ == item_name@),
        items@.len() > 0 ==> match parse_unsigned(items@[0].id@, u64::MAX as nat) {
            Some(n) => r == Ok::<Option<u64>, GarlandError>(Some(n as u64)),
            None => r matches Err(GarlandError::BadId(s)) && s@ == items@[0].id@,
        },
{
    if items.len() == 0 {
        return Err(GarlandError::NotFound(item_name.to_string()));
    }
    let digits = chars_of(items[0].id.as_str());
    match parse_unsigned_chars(&digits, u64::MAX) {
        Some(n) => Ok(Some(n)),
        None => Err(GarlandError::BadId(items[0].id.clone())),
    }
}

/// The address of the item document for `id`.
pub fn item_url(id: u64) -> (s: String)
    ensures
        s@ == "http://www.garlandtools.org/db/doc/item/en/3/"@ + digits_in_base(id as nat, 10) + ".json"@,
{
    let mut s = "http://www.garlandtools.org/db/doc/item/en/3/".to_string();
    push_digits(&mut s, id, 10);
    push_str(&mut s, ".json");
    s
}


/// A query string being written by `form_urlencoded::Serializer`.
#[verifier::external_body]
pub struct QuerySerializer {
    inner: Serializer<'static, String>,
}

/// Whether the byte `b` stands for itself in form encoding: ASCII letters,
/// digits and `*-._`.
pub open spec fn byte_kept(b: u8) -> bool {
    b == 42 || b == 45 || b == 46 || (48 <= b <= 57) || (65 <= b <= 90) || b == 95 || (97 <= b <= 122)
}

/// The capital hexadecimal digit of `d` (below 16).
pub open spec fn upper_hex(d: nat) -> char {
    if d < 10 {
        (('0' as u32) + d) as char
    } else {
        (('A' as u32) + (d - 10)) as char
    }
}

/// The form encoding of one byte: itself where it is kept, `+` for a
/// space, else `%` and two capital hexadecimal digits.
pub open spec fn byte_form(b: u8) -> Seq<char> {
    if byte_kept(b) {
        seq![b as char]
    } else if b == 32 {
        seq!['+']
    } else {
        seq!['%', upper_hex(b as nat / 16), upper_hex(b as nat % 16)]
    }
}

/// The `application/x-www-form-urlencoded` form of the bytes `b`.
pub open spec fn form_encoded(b: Seq<u8>) -> Seq<char>
    decreases b.len(),
{
    if b.len() == 0 {
        Seq::empty()
    } else {
        form_encoded(b.drop_last()) + byte_form(b.last())
    }
}

/// The text a query serializer holds so far.
pub uninterp spec fn serializer_text(s: QuerySerializer) -> Seq<char>;

/// `form_urlencoded::Serializer::new`: a serializer appending to `target`,
/// whose whole text counts as already written.
#[verifier::external_body]
fn serializer_new(target: String) -> (s: QuerySerializer)
    ensures
        serializer_text(s) == target@,
{
    QuerySerializer { inner: Serializer::new(target) }
}

/// `Serializer::append_pair`: appends `&` where the text is not empty, then
/// the form encodings of the UTF-8 bytes of `name` and `value` joined by
/// `=`.
#[verifier::external_body]
fn serializer_append_pair(s: &mut QuerySerializer, name: &str, value: &str)
    ensures
        serializer_text(*final(s)) == serializer_text(*old(s)) + (if serializer_text(*old(s)).len() > 0 {
            seq!['&']
        } else {
            Seq::empty()
        }) + form_encoded(vstd::utf8::encode_utf8(name@)) + seq!['='] + form_encoded(
            vstd::utf8::encode_utf8(value@),
        ),
{
    s.inner.append_pair(name, value);
}

/// `Serializer::finish`: the text written.
#[verifier::external_body]
fn serializer_finish(s: QuerySerializer) -> (r: String)
    ensures
        r@ == serializer_text(s),
{
    let mut s = s;
    s.inner.finish()
}

/// `&name=value` in a query, both parts form encoded.
pub open spec fn query_pair(name: Seq<char>, value: Seq<char>) -> Seq<char> {
    seq!['&'] + form_encoded(vstd::utf8::encode_utf8(name)) + seq!['='] + form_encoded(
        vstd::utf8::encode_utf8(value),
    )
}

/// The address of Garland's search for craftable items named exactly
/// `item_name`, in English.
pub open spec fn search_url_text(item_name: Seq<char>) -> Seq<char> {
    "https://www.garlandtools.org/api/search.php?"@ + query_pair("craftable"@, "1"@) + query_pair(
        "type"@,
        "item"@,
    ) + query_pair("text"@, item_name) + query_pair("lang"@, "en"@) + query_pair("exact"@, "1"@)
}

/// The address that searches Garland for the craftable item named exactly
/// `item_name`.
pub fn search_url(item_name: &str) -> (r: String)
    ensures
        r@ == search_url_text(item_name@),
{
    let base = "https://www.garlandtools.org/api/search.php?".to_string();
    proof {
        reveal_strlit("https://www.garlandtools.org/api/search.php?");
    }
    let mut q = serializer_new(base);
    serializer_append_pair(&mut q, "craftable", "1");
    serializer_append_pair(&mut q, "type", "item");
    serializer_append_pair(&mut q, "text", item_name);
    serializer_append_pair(&mut q, "lang", "en");
    serializer_append_pair(&mut q, "exact", "1");
    serializer_finish(q)
}

} // verus!
