//! Item lists: lines of the form `{count}x {name}`, as crafting list sites
//! export them.
use vstd::prelude::*;
use crate::text::{
    char_is_digit, chars_of, decimal_value, digit_value, is_digit, lemma_value_prefix_monotone, pieces_view, split_char, split_chars,
    string_of, sub_chars, trim, trim_chars,
};

verus! {

/// One entry of an item list.
#[derive(Debug, PartialEq)]
pub struct ListItem {
    pub item: String,
    pub count: u32,
}

/// Why a list line holds no item.
#[derive(Debug, PartialEq)]
pub enum ListError {
    /// The line is empty, does not start with a digit, or has no `x `.
    EmptyListItem,
}

/// The first position at or after `from` where `s` holds `x ` (the
/// separator between count and name).
pub open spec fn find_marker(s: Seq<char>, from: nat) -> Option<nat>
    decreases s.len() - from,
{
    if from + 1 >= s.len() {
        None
    } else if s[from as int] == 'x' && s[from + 1int] == ' ' {
        Some(from)
    } else {
        find_marker(s, from + 1)
    }
}

/// The digits `s` starts with.
pub open spec fn leading_digits(s: Seq<char>) -> Seq<char>
    decreases s.len(),
{
    if s.len() > 0 && is_digit(s[0]) {
        seq![s[0]] + leading_digits(s.drop_first())
    } else {
        Seq::empty()
    }
}

/// The count written in front of the first `x ` of a list line.
pub open spec fn line_count_value(line: Seq<char>, k: nat) -> nat {
    decimal_value(leading_digits(line.take(k as int)))
}

/// The item a (trimmed) list line names and how many of it: the line must
/// start with a digit and hold `x `; the count is the number its leading
/// digits spell (1 where they spell 0), the name all the text after the
/// first `x `.
pub open spec fn list_line(line: Seq<char>) -> Option<(Seq<char>, nat)> {
    match find_marker(line, 0) {
        None => None,
        Some(k) => if line.len() == 0 || !is_digit(line[0]) {
            None
        } else {
            let n = line_count_value(line, k);
            Some((line.subrange(k + 2int, line.len() as int), if n == 0 { 1 } else { n }))
        },
    }
}

/// Whether reading the count of a list line overflows a `u32`.
pub open spec fn count_overflows(line: Seq<char>) -> bool {
    match find_marker(line, 0) {
        None => false,
        Some(k) => line.len() > 0 && is_digit(line[0]) && line_count_value(line, k) > u32::MAX,
    }
}

/// The entries of a list whose lines are `ls`: each line is trimmed, and the
/// lines that hold no item are left out.
pub open spec fn list_items(ls: Seq<Seq<char>>) -> Seq<(Seq<char>, nat)>
    decreases ls.len(),
{
    if ls.len() == 0 {
        Seq::empty()
    } else {
        let rest = list_items(ls.drop_last());
        match list_line(trim(ls.last())) {
            Some(e) => rest.push(e),
            None => rest,
        }
    }
}

/// An entry as plain values.
pub open spec fn item_view(li: ListItem) -> (Seq<char>, nat) {
    (li.item@, li.count as nat)
}

/// The entries of a sequence of list items as plain values.
pub open spec fn items_view(v: Seq<ListItem>) -> Seq<(Seq<char>, nat)> {
    Seq::new(v.len(), |i: int| item_view(v[i]))
}

proof fn lemma_find_marker_bounds(s: Seq<char>, from: nat)
    ensures
        find_marker(s, from) matches Some(k) ==> from <= k && k + 1 < s.len() && s[k as int] == 'x'
            && s[k + 1int] == ' ',
    decreases s.len() - from,
{
    if from + 1 < s.len() && !(s[from as int] == 'x' && s[from + 1int] == ' ') {
        lemma_find_marker_bounds(s, from + 1);
    }
}

/// Finds the first `x ` at or after `from`.
fn marker_at(s: &Vec<char>, from: usize) -> (r: Option<usize>)
    ensures
        match r {
            Some(k) => find_marker(s@, from as nat) == Some(k as nat),
            None => find_marker(s@, from as nat) is None,
        },
{
    let mut i = from;
    while i < s.len() && i + 1 < s.len()
        invariant
            from <= i,
            find_marker(s@, from as nat) == find_marker(s@, i as nat),
        decreases s.len() - i,
    {
        if s[i] == 'x' && s[i + 1] == ' ' {
            return Some(i);
        }
        i += 1;
    }
    None
}

/// The count spelled by the digits `s` starts with, where it fits a `u32`.
fn leading_count(s: &Vec<char>, k: usize) -> (r: Option<u32>)
    requires
        k <= s.len(),
    ensures
        match r {
            Some(n) => line_count_value(s@, k as nat) == n,
            None => line_count_value(s@, k as nat) > u32::MAX,
        },
{
    let ghost first = s@.take(k as int);
    let mut count: u32 = 0;
    let mut i: usize = 0;
    assert(first.skip(0) == first);
    assert(first.take(0) =~= Seq::<char>::empty());
    while i < k && char_is_digit(s[i])
        invariant
            i <= k <= s.len(),
            first == s@.take(k as int),
            leading_digits(first) == first.take(i as int) + leading_digits(first.skip(i as int)),
            forall|j: int| 0 <= j < i ==> is_digit(#[trigger] first[j]),
            decimal_value(first.take(i as int)) == count,
        decreases k - i,
    {
        let d = (s[i] as u32) - ('0' as u32);
        let ghost t = first.take(i + 1);
        assert(t.drop_last() == first.take(i as int));
        assert(first.skip(i as int).drop_first() == first.skip(i + 1));
        assert(first.take(i as int) + (seq![first[i as int]] + leading_digits(first.skip(i + 1)))
            == t + leading_digits(first.skip(i + 1)));
        if count > 429496729 || (count == 429496729 && d > 5) {
            proof {
                lemma_prefix_value_bound(first, (i + 1) as nat);
            }
            return None;
        }
        count = count * 10 + d;
        i += 1;
    }
    proof {
        assert(leading_digits(first.skip(i as int)) == Seq::<char>::empty());
        assert(first.take(i as int) + Seq::<char>::empty() == first.take(i as int));
    }
    Some(count)
}

/// The value of the leading digits is at least the value of any prefix of
/// them.
proof fn lemma_prefix_value_bound(s: Seq<char>, i: nat)
    requires
        i <= s.len(),
        forall|j: int| 0 <= j < i ==> is_digit(#[trigger] s[j]),
    ensures
        decimal_value(leading_digits(s)) >= decimal_value(s.take(i as int)),
    decreases i,
{
    lemma_leading_digits_prefix(s, i);
    let l = leading_digits(s);
    lemma_value_prefix_monotone(l, i);
}

/// The leading digits of `s` start with any all-digit prefix of `s`.
proof fn lemma_leading_digits_prefix(s: Seq<char>, i: nat)
    requires
        i <= s.len(),
        forall|j: int| 0 <= j < i ==> is_digit(#[trigger] s[j]),
    ensures
        i <= leading_digits(s).len(),
        leading_digits(s).take(i as int) == s.take(i as int),
    decreases i,
{
    if i > 0 {
        assert(is_digit(s[0]));
        let r = s.drop_first();
        assert forall|j: int| 0 <= j < i - 1 implies is_digit(#[trigger] r[j]) by {
            assert(r[j] == s[j + 1]);
        }
        lemma_leading_digits_prefix(r, (i - 1) as nat);
        assert(leading_digits(s) == seq![s[0]] + leading_digits(r));
        assert((seq![s[0]] + leading_digits(r)).take(i as int) =~= seq![s[0]] + leading_digits(r).take(i - 1));
        assert(s.take(i as int) =~= seq![s[0]] + r.take(i - 1));
    }
}

impl ListError {
    /// The message that tells what is wrong.
    pub fn message(&self) -> (r: String)
        ensures
            r@ == "Empty list item!"@,
    {
        "Empty list item!".to_string()
    }
}

/// Reads one (trimmed) list line.
pub fn parse_list_line(line: &str) -> (r: Result<ListItem, ListError>)
    requires
        !count_overflows(line@),
    ensures
        match r {
            Ok(li) => list_line(line@) == Some(item_view(li)),
            Err(_) => list_line(line@) is None,
        },
{
    let chars = chars_of(line);
    let first_marker = marker_at(&chars, 0);
    proof {
        lemma_find_marker_bounds(chars@, 0);
    }
    if chars.len() == 0 || !char_is_digit(chars[0]) || first_marker.is_none() {
        return Err(ListError::EmptyListItem);
    }
    let k = match first_marker {
        Some(k) => k,
        None => 0,
    };
    let mut count = match leading_count(&chars, k) {
        Some(n) => n,
        None => 0,
    };
    if count == 0 {
        count = 1;
    }
    let name = sub_chars(&chars, k + 2, chars.len());
    Ok(ListItem { item: string_of(&name), count })
}

/// Whether the count of a (trimmed) list line fits a `u32`.
pub fn list_line_fits(line: &str) -> (r: bool)
    ensures
        r == !count_overflows(line@),
{
    let chars = chars_of(line);
    proof {
        lemma_find_marker_bounds(chars@, 0);
    }
    if chars.len() == 0 || !char_is_digit(chars[0]) {
        return true;
    }
    match marker_at(&chars, 0) {
        None => true,
        Some(k) => leading_count(&chars, k).is_some(),
    }
}

/// Whether the count of every line of an item list fits a `u32`.
pub fn item_list_fits(string: &str) -> (r: bool)
    ensures
        r == (forall|i: int|
            0 <= i < split_char(string@, '\n').len() ==> !count_overflows(
                trim(#[trigger] split_char(string@, '\n')[i]),
            )),
{
    let chars = chars_of(string);
    let ls = split_chars(&chars, '\n');
    let ghost all = split_char(string@, '\n');
    let mut i: usize = 0;
    while i < ls.len()
        invariant
            i <= ls.len(),
            pieces_view(ls@) == all,
            all == split_char(string@, '\n'),
            forall|j: int| 0 <= j < i ==> !count_overflows(trim(#[trigger] all[j])),
        decreases ls.len() - i,
    {
        let t = trim_chars(&ls[i]);
        assert(ls@[i as int]@ == all[i as int]);
        let text = string_of(&t);
        if !list_line_fits(text.as_str()) {
            return false;
        }
        i += 1;
    }
    true
}

/// The entries of an item list, one line each, in order; lines that hold no
/// item are left out.
pub fn parse_item_list(string: &str) -> (r: Result<Vec<ListItem>, ListError>)
    requires
        forall|i: int|
            0 <= i < split_char(string@, '\n').len() ==> !count_overflows(
                trim(#[trigger] split_char(string@, '\n')[i]),
            ),
    ensures
        r matches Ok(v) && items_view(v@) == list_items(split_char(string@, '\n')),
{
    let chars = chars_of(string);
    let ls = split_chars(&chars, '\n');
    let ghost all = split_char(string@, '\n');
    let mut v: Vec<ListItem> = Vec::new();
    let mut i: usize = 0;
    while i < ls.len()
        invariant
            i <= ls.len(),
            pieces_view(ls@) == all,
            all == split_char(string@, '\n'),
            forall|j: int| 0 <= j < all.len() ==> !count_overflows(trim(#[trigger] all[j])),
            items_view(v@) == list_items(all.take(i as int)),
        decreases ls.len() - i,
    {
        let t = trim_chars(&ls[i]);
        assert(ls@[i as int]@ == all[i as int]);
        assert(all.take(i + 1).drop_last() == all.take(i as int));
        let text = string_of(&t);
        match parse_list_line(text.as_str()) {
            Ok(r) => {
                let ghost before = v@;
                v.push(r);
                assert(items_view(v@) =~= items_view(before).push(item_view(r)));
            },
            Err(_) => {},
        }
        i += 1;
    }
    assert(all.take(ls.len() as int) == all);
    Ok(v)
}

/// Every entry an item list yields counts at least one item.
pub proof fn lemma_list_counts_positive(ls: Seq<Seq<char>>)
    ensures
        forall|i: int| 0 <= i < list_items(ls).len() ==> (#[trigger] list_items(ls)[i]).1 >= 1,
    decreases ls.len(),
{
    if ls.len() > 0 {
        lemma_list_counts_positive(ls.drop_last());
        let rest = list_items(ls.drop_last());
        match list_line(trim(ls.last())) {
            Some(e) => {
                assert(e.1 >= 1);
                assert(list_items(ls) == rest.push(e));
                assert forall|i: int| 0 <= i < list_items(ls).len() implies (#[trigger] list_items(ls)[i]).1 >= 1 by {
                    if i < rest.len() {
                        assert(list_items(ls)[i] == rest[i]);
                    }
                }
            },
            None => {},
        }
    }
}

} // verus!
