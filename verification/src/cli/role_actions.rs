//! The command-line tool's role actions: at most ten set at a time, kept in
//! order of last use so that the one unused for longest makes room for a
//! new one. The game is told of each change by the caller.
use vstd::prelude::*;
use linked_hash_set::LinkedHashSet;
use crate::text::{chars_eq_str, chars_of, lowercase, str_to_lowercase};

verus! {

/// The texts a set of action names holds, oldest first.
pub uninterp spec fn name_set_items(s: LinkedHashSet<String>) -> Seq<Seq<char>>;

/// The texts other than `v`.
pub open spec fn other_than(v: Seq<char>) -> spec_fn(Seq<char>) -> bool {
    |x: Seq<char>| x != v
}

/// `LinkedHashSet::new`: an empty set.
#[verifier::external_body]
fn name_set_new() -> (s: LinkedHashSet<String>)
    ensures
        name_set_items(s) == Seq::<Seq<char>>::empty(),
{
    LinkedHashSet::new()
}

/// `LinkedHashSet::len`: the number of items.
#[verifier::external_body]
fn name_set_len(s: &LinkedHashSet<String>) -> (r: usize)
    ensures
        r == name_set_items(*s).len(),
{
    s.len()
}

/// `LinkedHashSet::contains`: whether the set holds the text `v`.
#[verifier::external_body]
fn name_set_contains(s: &LinkedHashSet<String>, v: &str) -> (r: bool)
    ensures
        r == name_set_items(*s).contains(v@),
{
    s.contains(v)
}

/// `LinkedHashSet::insert`: puts `v` at the back (moving it there where it
/// was held already) and answers whether it was new. Items stay distinct.
#[verifier::external_body]
fn name_set_insert(s: &mut LinkedHashSet<String>, v: String) -> (r: bool)
    ensures
        r == !name_set_items(*old(s)).contains(v@),
        r ==> name_set_items(*final(s)) == name_set_items(*old(s)).push(v@),
        !r ==> name_set_items(*final(s)) == name_set_items(*old(s)).filter(other_than(v@)).push(v@),
        name_set_items(*old(s)).no_duplicates() ==> name_set_items(*final(s)).no_duplicates(),
{
    s.insert(v)
}

/// `LinkedHashSet::pop_front`: removes and returns the oldest item.
#[verifier::external_body]
fn name_set_pop_front(s: &mut LinkedHashSet<String>) -> (r: Option<String>)
    ensures
        name_set_items(*old(s)).len() == 0 ==> r is None && name_set_items(*final(s)) == name_set_items(
            *old(s),
        ),
        name_set_items(*old(s)).len() > 0 ==> (r matches Some(x) && x@ == name_set_items(*old(s))[0]
            && name_set_items(*final(s)) == name_set_items(*old(s)).drop_first()),
{
    s.pop_front()
}

/// Whether `s` (in lowercase) names a role action.
pub open spec fn is_role_action_text(s: Seq<char>) -> bool {
    ||| s == "brand of earth"@
    ||| s == "brand of fire"@
    ||| s == "brand of ice"@
    ||| s == "brand of lightning"@
    ||| s == "brand of water"@
    ||| s == "brand of wind"@
    ||| s == "byregot's blessing"@
    ||| s == "careful synthesis ii"@
    ||| s == "careful synthesis"@
    ||| s == "comfort zone"@
    ||| s == "flawless synthesis"@
    ||| s == "hasty touch"@
    ||| s == "ingenuity ii"@
    ||| s == "ingenuity"@
    ||| s == "innovation"@
    ||| s == "maker's mark"@
    ||| s == "manipulation"@
    ||| s == "muscle memory"@
    ||| s == "name of earth"@
    ||| s == "name of fire"@
    ||| s == "name of ice"@
    ||| s == "name of lightning"@
    ||| s == "name of water"@
    ||| s == "name of wind"@
    ||| s == "piece by piece"@
    ||| s == "rapid synthesis"@
    ||| s == "reclaim"@
    ||| s == "rumination"@
    ||| s == "steady hand ii"@
    ||| s == "tricks of the trade"@
    ||| s == "waste not ii"@
    ||| s == "waste not"@
}

fn role_action_text(c: &Vec<char>) -> (r: bool)
    ensures
        r == is_role_action_text(c@),
{
    chars_eq_str(c, "brand of earth") || chars_eq_str(c, "brand of fire") || chars_eq_str(c, "brand of ice")
        || chars_eq_str(c, "brand of lightning") || chars_eq_str(c, "brand of water") || chars_eq_str(
        c,
        "brand of wind",
    ) || chars_eq_str(c, "byregot's blessing") || chars_eq_str(c, "careful synthesis ii")
        || chars_eq_str(c, "careful synthesis") || chars_eq_str(c, "comfort zone") || chars_eq_str(
        c,
        "flawless synthesis",
    ) || chars_eq_str(c, "hasty touch") || chars_eq_str(c, "ingenuity ii") || chars_eq_str(c, "ingenuity")
        || chars_eq_str(c, "innovation") || chars_eq_str(c, "maker's mark") || chars_eq_str(
        c,
        "manipulation",
    ) || chars_eq_str(c, "muscle memory") || chars_eq_str(c, "name of earth") || chars_eq_str(
        c,
        "name of fire",
    ) || chars_eq_str(c, "name of ice") || chars_eq_str(c, "name of lightning") || chars_eq_str(
        c,
        "name of water",
    ) || chars_eq_str(c, "name of wind") || chars_eq_str(c, "piece by piece") || chars_eq_str(
        c,
        "rapid synthesis",
    ) || chars_eq_str(c, "reclaim") || chars_eq_str(c, "rumination") || chars_eq_str(c, "steady hand ii")
        || chars_eq_str(c, "tricks of the trade") || chars_eq_str(c, "waste not ii") || chars_eq_str(
        c,
        "waste not",
    )
}

/// The actions set after `a` is used: moved last where it is set, else
/// added last, the one unused for longest leaving where ten were set.
pub open spec fn used_action(items: Seq<Seq<char>>, a: Seq<char>) -> Seq<Seq<char>> {
    if items.contains(a) {
        items.filter(other_than(a)).push(a)
    } else if items.len() < 10 {
        items.push(a)
    } else {
        items.push(a).drop_first()
    }
}

/// Leaving `a` out of a sequence that does not hold it changes nothing.
proof fn filter_absent(s: Seq<Seq<char>>, a: Seq<char>)
    requires
        !s.contains(a),
    ensures
        s.filter(other_than(a)) == s,
    decreases s.len(),
{
    if s.len() > 0 {
        let d = s.drop_last();
        assert(d.push(s.last()) =~= s);
        assert(!d.contains(a)) by {
            if d.contains(a) {
                let k = choose|k: int| 0 <= k < d.len() && d[k] == a;
                assert(s[k] == a);
            }
        }
        filter_absent(d, a);
        d.lemma_filter_push(s.last(), other_than(a));
        assert(s.last() != a) by {
            assert(s[s.len() - 1] == s.last());
        }
    } else {
        assert(s.filter(other_than(a)) =~= s) by {
            s.lemma_filter_len(other_than(a));
        }
    }
}

/// Using an action twice in a row is using it once: the second use leaves
/// the order as the first made it.
pub proof fn lemma_used_twice(items: Seq<Seq<char>>, a: Seq<char>)
    requires
        items.no_duplicates(),
    ensures
        used_action(used_action(items, a), a) == used_action(items, a),
{
    let once = used_action(items, a);
    let kept = items.filter(other_than(a));
    if items.contains(a) {
        assert(!kept.contains(a)) by {
            if kept.contains(a) {
                items.lemma_filter_contains_rev(other_than(a), a);
                let k = choose|k: int| 0 <= k < kept.len() && kept[k] == a;
                items.lemma_filter_pred(other_than(a), k);
            }
        }
        assert(once == kept.push(a));
        assert(once.contains(a)) by {
            assert(once[kept.len() as int] == a);
        }
        filter_absent(kept, a);
        kept.lemma_filter_push(a, other_than(a));
    } else if items.len() < 10 {
        filter_absent(items, a);
        assert(once.contains(a)) by {
            assert(once[items.len() as int] == a);
        }
        items.lemma_filter_push(a, other_than(a));
    } else {
        assert(once.contains(a)) by {
            assert(once[once.len() - 1] == a);
        }
        let full = items.push(a);
        assert(!once.drop_last().contains(a)) by {
            if once.drop_last().contains(a) {
                let k = choose|k: int| 0 <= k < once.drop_last().len() && once.drop_last()[k] == a;
                assert(items[k + 1] == a);
            }
        }
        assert(once.drop_last().push(a) =~= once);
        filter_absent(once.drop_last(), a);
        once.drop_last().lemma_filter_push(a, other_than(a));
    }
}

/// The role actions currently set, in order of last use.
#[derive(Debug)]
pub struct RoleActions {
    pub current_actions: LinkedHashSet<String>,
}

impl RoleActions {
    /// The actions set, the one unused for longest first.
    pub open spec fn items(&self) -> Seq<Seq<char>> {
        name_set_items(self.current_actions)
    }

    /// At most ten distinct actions are set.
    pub open spec fn wf(&self) -> bool {
        self.items().len() <= 10 && self.items().no_duplicates()
    }

    /// No role action set.
    pub fn new() -> (r: RoleActions)
        ensures
            r.items() == Seq::<Seq<char>>::empty(),
            r.wf(),
    {
        RoleActions { current_actions: name_set_new() }
    }

    /// Whether `action`, in any case, names a role action.
    pub fn is_role_action(&self, action: &str) -> (r: bool)
        ensures
            r == is_role_action_text(lowercase(action@)),
    {
        let lower = str_to_lowercase(action);
        let c = chars_of(lower.as_str());
        role_action_text(&c)
    }

    /// The number of actions set.
    pub fn count(&self) -> (r: usize)
        ensures
            r == self.items().len(),
    {
        name_set_len(&self.current_actions)
    }

    /// Whether `action` is set, as spelled.
    pub fn contains(&self, action: &str) -> (r: bool)
        ensures
            r == self.items().contains(action@),
    {
        name_set_contains(&self.current_actions, action)
    }

    /// Uses the role action `action`: where it is set already it becomes
    /// the most recently used and `None` is returned; else it is added,
    /// returning `Some(None)` where there was room and `Some(Some(old))`
    /// where `old`, the action unused for longest, was removed to make room.
    /// The caller mirrors each change in the game.
    pub fn add_action(&mut self, action: &str) -> (r: Option<Option<String>>)
        requires
            is_role_action_text(lowercase(action@)),
            old(self).wf(),
        ensures
            final(self).wf(),
            final(self).items().last() == action@,
            final(self).items() == used_action(old(self).items(), action@),
            old(self).items().contains(action@) ==> r is None && final(self).items() == old(self).items().filter(
                other_than(action@),
            ).push(action@),
            !old(self).items().contains(action@) && old(self).items().len() < 10 ==> r == Some(None::<String>)
                && final(self).items() == old(self).items().push(action@),
            !old(self).items().contains(action@) && old(self).items().len() == 10 ==> (r matches Some(
                Some(gone),
            ) && gone@ == old(self).items()[0] && final(self).items() == old(self).items().push(
                action@,
            ).drop_first()),
    {
        let ghost before = self.items();
        let fresh = name_set_insert(&mut self.current_actions, action.to_string());
        if !fresh {
            proof {
                let k = choose|k: int| 0 <= k < before.len() && before[k] == action@;
                filter_drops(before, action@, k);
            }
            return None;
        }
        assert(self.items() == before.push(action@));
        assert(self.items()[before.len() as int] == action@);
        if self.count() <= 10 {
            return Some(None);
        }
        let gone = name_set_pop_front(&mut self.current_actions);
        assert(self.items()[self.items().len() - 1] == action@);
        assert(self.items().no_duplicates()) by {
            let full = before.push(action@);
            assert forall|i: int, j: int| 0 <= i < j < self.items().len() implies self.items()[i]
                != self.items()[j] by {
                assert(self.items()[i] == full[i + 1]);
                assert(self.items()[j] == full[j + 1]);
            }
        }
        Some(gone)
    }

    /// Uses `action` where it names a role action (see [`add_action`]);
    /// `None`, with nothing changed, where it does not.
    pub fn try_add_action(&mut self, action: &str) -> (r: Option<Option<Option<String>>>)
        requires
            old(self).wf(),
        ensures
            r is Some <==> is_role_action_text(lowercase(action@)),
            final(self).wf(),
            r is None ==> final(self).items() == old(self).items(),
            r is Some ==> final(self).items() == used_action(old(self).items(), action@),
            r matches Some(x) ==> (old(self).items().contains(action@) ==> x is None),
            r matches Some(x) ==> (!old(self).items().contains(action@) && old(self).items().len() < 10
                ==> x == Some(None::<String>)),
            r matches Some(x) ==> (!old(self).items().contains(action@) && old(self).items().len() == 10
                ==> (x matches Some(Some(gone)) && gone@ == old(self).items()[0])),
    {
        if self.is_role_action(action) {
            Some(self.add_action(action))
        } else {
            None
        }
    }
}

/// Leaving out every copy of `v` from a sequence that holds it at `k`
/// shortens it.
proof fn filter_drops(s: Seq<Seq<char>>, v: Seq<char>, k: int)
    requires
        0 <= k < s.len(),
        s[k] == v,
    ensures
        s.filter(other_than(v)).len() < s.len(),
    decreases s.len(),
{
    let f = other_than(v);
    let d = s.drop_last();
    assert(d.push(s.last()) =~= s);
    d.lemma_filter_len(f);
    d.lemma_filter_push(s.last(), f);
    if k < s.len() - 1 {
        filter_drops(d, v, k);
    }
}

} // verus!
