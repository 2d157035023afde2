//! Items and their materials for the command-line tool.
use vstd::prelude::*;
use crate::garland::{JsonItem, craft_covers, ingredient_lines, push_ingredient_lines};
use crate::text::{digits_in_base, push_digits, push_str};

verus! {

/// An item and the materials it is crafted from.
#[derive(Debug)]
pub struct Item {
    pub name: String,
    pub materials: Vec<Material>,
}

/// A material and how many of it.
#[derive(Debug)]
pub struct Material {
    pub name: String,
    pub count: u64,
}

/// The materials of an item as plain values: name and count.
pub open spec fn materials_view(v: Seq<Material>) -> Seq<(Seq<char>, u64)> {
    Seq::new(v.len(), |i: int| (v[i].name@, v[i].count))
}

impl Item {
    /// The item a Garland document describes: the i-th listed ingredient is
    /// named as listed and counted as the i-th ingredient of the first craft.
    pub fn from(json_item: JsonItem) -> (r: Item)
        requires
            json_item.item.craft@.len() > 0,
            json_item.item.craft@[0].ingredients@.len() >= json_item.ingredients@.len(),
        ensures
            r.name@ == json_item.item.name@,
            r.materials@.len() == json_item.ingredients@.len(),
            forall|i: int|
                0 <= i < r.materials@.len() ==> (#[trigger] materials_view(r.materials@)[i]) == (
                    json_item.ingredients@[i].name@,
                    json_item.item.craft@[0].ingredients@[i].amount,
                ),
    {
        let mut v: Vec<Material> = Vec::new();
        let mut i: usize = 0;
        while i < json_item.ingredients.len()
            invariant
                i <= json_item.ingredients@.len(),
                json_item.item.craft@.len() > 0,
                json_item.item.craft@[0].ingredients@.len() >= json_item.ingredients@.len(),
                v@.len() == i,
                forall|j: int|
                    0 <= j < i ==> (#[trigger] materials_view(v@)[j]) == (
                        json_item.ingredients@[j].name@,
                        json_item.item.craft@[0].ingredients@[j].amount,
                    ),
            decreases json_item.ingredients@.len() - i,
        {
            let ghost before = v@;
            v.push(
                Material {
                    name: json_item.ingredients[i].name.clone(),
                    count: json_item.item.craft[0].ingredients[i].amount,
                },
            );
            assert forall|j: int| 0 <= j < i + 1 implies (#[trigger] materials_view(v@)[j]) == (
                json_item.ingredients@[j].name@,
                json_item.item.craft@[0].ingredients@[j].amount,
            ) by {
                if j < i {
                    assert(materials_view(v@)[j] == materials_view(before)[j]);
                }
            }
            i += 1;
        }
        Item { name: json_item.item.name, materials: v }
    }
}

/// The Garland document shown for debugging: name, id and ingredient lines
/// between braces, every part on its own line.
pub fn json_item_display(item: &JsonItem) -> (s: String)
    requires
        craft_covers(*item),
    ensures
        s@ == "item {\n\tname: "@ + item.item.name@ + "\n\tid:   "@ + digits_in_base(item.item.id as nat, 10)
            + "\n\tingredients; {\n"@ + ingredient_lines(
            item.ingredients@,
            item.item.craft@[0].ingredients@,
            item.ingredients@.len() as int,
        ) + "\t}\n}\n"@,
{
    let mut s = "item {\n\tname: ".to_string();
    push_str(&mut s, item.item.name.as_str());
    push_str(&mut s, "\n\tid:   ");
    push_digits(&mut s, item.item.id, 10);
    push_str(&mut s, "\n\tingredients; {\n");
    push_ingredient_lines(&mut s, item);
    push_str(&mut s, "\t}\n}\n");
    s
}

/// The text lines of materials: `  {count}x {name}` each.
pub open spec fn material_text(ms: Seq<(Seq<char>, u64)>) -> Seq<char>
    decreases ms.len(),
{
    if ms.len() == 0 {
        Seq::empty()
    } else {
        material_text(ms.drop_last()) + "  "@ + digits_in_base(ms.last().1 as nat, 10) + "x "@ + ms.last().0
            + "\n"@
    }
}

impl Item {
    /// The item as shown: its name, then its materials between brackets,
    /// one per line.
    pub fn to_display_string(&self) -> (s: String)
        ensures
            s@ == self.name@ + "\n[\n"@ + material_text(materials_view(self.materials@)) + "]\n"@,
    {
        let mut s = self.name.clone();
        push_str(&mut s, "\n[\n");
        let ghost head = s@;
        let mut i: usize = 0;
        while i < self.materials.len()
            invariant
                i <= self.materials@.len(),
                s@ == head + material_text(materials_view(self.materials@).take(i as int)),
            decreases self.materials@.len() - i,
        {
            let m = &self.materials[i];
            push_str(&mut s, "  ");
            push_digits(&mut s, m.count, 10);
            push_str(&mut s, "x ");
            push_str(&mut s, m.name.as_str());
            push_str(&mut s, "\n");
            let ghost t = materials_view(self.materials@).take(i + 1);
            assert(t.drop_last() == materials_view(self.materials@).take(i as int));
            assert(t.last() == (m.name@, m.count));
            assert(s@ =~= head + material_text(t));
            i += 1;
        }
        assert(materials_view(self.materials@).take(self.materials@.len() as int) == materials_view(self.materials@));
        push_str(&mut s, "]\n");
        s
    }
}

} // verus!
