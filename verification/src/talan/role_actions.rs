//! The role actions the game lets a crafter carry over from other jobs: at
//! most ten at a time, the longest unused one making room for a new one.
use vstd::prelude::*;
use linked_hash_set::LinkedHashSet;
use crate::text::{chars_eq_str, chars_of};

verus! {

/// The insertion-ordered set of the `linked_hash_set` crate, declared so
/// that it can stand in fields and signatures; what it holds is known only
/// through the trusted functions below.
#[verifier::external_type_specification]
#[verifier::external_body]
#[verifier::reject_recursive_types(T)]
#[verifier::reject_recursive_types(S)]
pub struct ExLinkedHashSet<T, S>(LinkedHashSet<T, S>);

/// The texts a set of actions holds, oldest first.
pub uninterp spec fn set_items(s: LinkedHashSet<&str>) -> Seq<Seq<char>>;

/// `LinkedHashSet::new`: an empty set.
#[verifier::external_body]
fn set_new<'a>() -> (s: LinkedHashSet<&'a str>)
    ensures
        set_items(s) == Seq::<Seq<char>>::empty(),
{
    LinkedHashSet::new()
}

/// `LinkedHashSet::len`: the number of items.
#[verifier::external_body]
fn set_len(s: &LinkedHashSet<&str>) -> (r: usize)
    ensures
        r == set_items(*s).len(),
{
    s.len()
}

/// `LinkedHashSet::contains`: whether the set holds `v`.
#[verifier::external_body]
fn set_contains(s: &LinkedHashSet<&str>, v: &str) -> (r: bool)
    ensures
        r == set_items(*s).contains(v@),
{
    s.contains(v)
}

/// `LinkedHashSet::insert`: adds `v` at the back (moving it there if it was
/// held already) and answers whether it was new. Items stay distinct.
#[verifier::external_body]
fn set_insert<'a>(s: &mut LinkedHashSet<&'a str>, v: &'a str) -> (r: bool)
    ensures
        r == !set_items(*old(s)).contains(v@),
        r ==> set_items(*final(s)) == set_items(*old(s)).push(v@),
        !r ==> set_items(*final(s)) == set_items(*old(s)).filter(|x: Seq<char>| x != v@).push(v@),
        set_items(*old(s)).no_duplicates() ==> set_items(*final(s)).no_duplicates(),
{
    s.insert(v)
}

/// `LinkedHashSet::pop_front`: removes and returns the oldest item.
#[verifier::external_body]
fn set_pop_front<'a>(s: &mut LinkedHashSet<&'a str>) -> (r: Option<&'a str>)
    ensures
        set_items(*old(s)).len() == 0 ==> r is None && set_items(*final(s)) == set_items(*old(s)),
        set_items(*old(s)).len() > 0 ==> (r matches Some(x) && x@ == set_items(*old(s))[0]
            && set_items(*final(s)) == set_items(*old(s)).drop_first()),
{
    s.pop_front()
}

/// Whether `s` names a role action.
pub open spec fn is_role_action_name(s: Seq<char>) -> bool {
    ||| s == "careful synthesis ii"@
    ||| s == "careful synthesis"@
    ||| s == "comfort zone"@
    ||| s == "flawless synthesis"@
    ||| s == "hasty touch"@
    ||| s == "ingenuity ii"@
    ||| s == "ingenuity"@
    ||| s == "innovation"@
    ||| s == "maker's mark"@
    ||| s == "manipulation"@
    ||| s == "muscle memory"@
    ||| s == "piece by piece"@
    ||| s == "rapid synthesis"@
    ||| s == "reclaim"@
    ||| s == "rumination"@
    ||| s == "tricks of the trade"@
    ||| s == "waste not ii"@
    ||| s == "waste not"@
}

/// The actions set after `a` is set in `items`: unchanged where it is set
/// already, else `a` added last, the oldest leaving where ten were set.
pub open spec fn with_action(items: Seq<Seq<char>>, a: Seq<char>) -> Seq<Seq<char>> {
    if items.contains(a) {
        items
    } else if items.len() < 10 {
        items.push(a)
    } else {
        items.push(a).drop_first()
    }
}

/// Setting an action a second time changes nothing.
pub proof fn lemma_with_action_twice(items: Seq<Seq<char>>, a: Seq<char>)
    ensures
        with_action(with_action(items, a), a) == with_action(items, a),
{
    let once = with_action(items, a);
    if !items.contains(a) {
        if items.len() < 10 {
            assert(once[items.len() as int] == a);
        } else {
            assert(once[once.len() - 1] == a);
        }
    }
}

/// The role actions currently set, oldest first.
#[derive(Debug)]
pub struct RoleActions<'a> {
    pub current_actions: LinkedHashSet<&'a str>,
}

impl<'a> RoleActions<'a> {
    /// The actions currently set, oldest first.
    pub open spec fn items(&self) -> Seq<Seq<char>> {
        set_items(self.current_actions)
    }

    /// At most ten distinct actions are set.
    pub open spec fn wf(&self) -> bool {
        self.items().len() <= 10 && self.items().no_duplicates()
    }

    /// No role action set.
    pub fn new() -> (r: Self)
        ensures
            r.items() == Seq::<Seq<char>>::empty(),
            r.wf(),
    {
        RoleActions { current_actions: set_new() }
    }

    /// Whether `action` names a role action.
    pub fn is_role_action(&self, action: &str) -> (r: bool)
        ensures
            r == is_role_action_name(action@),
    {
        let c = chars_of(action);
        chars_eq_str(&c, "careful synthesis ii")
        || chars_eq_str(&c, "careful synthesis")
        || chars_eq_str(&c, "comfort zone")
        || chars_eq_str(&c, "flawless synthesis")
        || chars_eq_str(&c, "hasty touch")
        || chars_eq_str(&c, "ingenuity ii")
        || chars_eq_str(&c, "ingenuity")
        || chars_eq_str(&c, "innovation")
        || chars_eq_str(&c, "maker's mark")
        || chars_eq_str(&c, "manipulation")
        || chars_eq_str(&c, "muscle memory")
        || chars_eq_str(&c, "piece by piece")
        || chars_eq_str(&c, "rapid synthesis")
        || chars_eq_str(&c, "reclaim")
        || chars_eq_str(&c, "rumination")
        || chars_eq_str(&c, "tricks of the trade")
        || chars_eq_str(&c, "waste not ii")
        || chars_eq_str(&c, "waste not")
    }

    /// The number of actions set.
    pub fn count(&self) -> (r: usize)
        ensures
            r == self.items().len(),
    {
        set_len(&self.current_actions)
    }

    /// Whether `action` is set.
    pub fn contains(&self, action: &str) -> (r: bool)
        ensures
            r == self.items().contains(action@),
    {
        set_contains(&self.current_actions, action)
    }

    /// Sets the role action `action`. Returns `None` where it is set
    /// already (nothing changes), `Some(None)` where it was added in a free
    /// place, and `Some(Some(old))` where the oldest action `old` was removed
    /// to make room; the caller mirrors the change in the game.
    pub fn add_action(&mut self, action: &'a str) -> (r: Option<Option<&'a str>>)
        requires
            is_role_action_name(action@),
            old(self).wf(),
        ensures
            final(self).wf(),
            final(self).items().contains(action@),
            final(self).items() == with_action(old(self).items(), action@),
            old(self).items().contains(action@) ==> r is None && final(self).items() == old(self).items(),
            !old(self).items().contains(action@) && old(self).items().len() < 10 ==> r == Some(
                None::<&'a str>,
            ) && final(self).items() == old(self).items().push(action@),
            !old(self).items().contains(action@) && old(self).items().len() == 10 ==> (r matches Some(
                Some(gone),
            ) && gone@ == old(self).items()[0] && final(self).items() == old(self).items().push(
                action@,
            ).drop_first()),
    {
        if self.contains(action) {
            return None;
        }
        let ghost before = self.items();
        set_insert(&mut self.current_actions, action);
        assert(self.items() == before.push(action@));
        assert(self.items().no_duplicates()) by {
            assert forall|i: int, j: int| 0 <= i < j < self.items().len() implies self.items()[i] != self.items()[j] by {
                if j == before.len() {
                    assert(before.contains(before[i]));
                }
            }
        }
        assert(self.items()[before.len() as int] == action@);
        assert(self.items().contains(action@));
        if self.count() <= 10 {
            return Some(None);
        }
        let gone = set_pop_front(&mut self.current_actions);
        assert(self.items().contains(action@)) by {
            assert(self.items()[self.items().len() - 1] == action@);
        }
        assert(self.items().no_duplicates()) by {
            let full = before.push(action@);
            assert forall|i: int, j: int| 0 <= i < j < self.items().len() implies self.items()[i] != self.items()[j] by {
                assert(self.items()[i] == full[i + 1]);
                assert(self.items()[j] == full[j + 1]);
            }
        }
        Some(gone)
    }
}

} // verus!
