//! The game itself: jobs, cities, UI input, and the structures read from its
//! memory.
pub mod citystate;
pub mod remote;
pub mod ui;

use vstd::prelude::*;
use crate::text::chars_of;

verus! {

/// The number of crafting jobs.
pub const JOB_CNT: usize = 8;

/// The abbreviation of crafting job `i`, in the game's order.
pub open spec fn job_abbreviation(i: int) -> &'static str {
    if i == 0 { "CRP" }
    else if i == 1 { "BSM" }
    else if i == 2 { "ARM" }
    else if i == 3 { "GSM" }
    else if i == 4 { "LTW" }
    else if i == 5 { "WVR" }
    else if i == 6 { "ALC" }
    else { "CUL" }
}

/// The abbreviation of crafting job `i`.
pub fn job_name(i: usize) -> (r: &'static str)
    requires
        i < JOB_CNT,
    ensures
        r == job_abbreviation(i as int),
{
    if i == 0 { "CRP" }
    else if i == 1 { "BSM" }
    else if i == 2 { "ARM" }
    else if i == 3 { "GSM" }
    else if i == 4 { "LTW" }
    else if i == 5 { "WVR" }
    else if i == 6 { "ALC" }
    else { "CUL" }
}

/// A venture a retainer can be sent on, by its id.
#[derive(Copy, Clone, Debug, PartialEq)]
pub struct Venture {
    pub id: u32,
}

impl Venture {
    /// The venture with id `id`.
    pub fn from(id: u32) -> (v: Venture)
        ensures
            v.id == id,
    {
        Venture { id }
    }
}

/// The text every title of the game's window holds.
pub const GAME_TITLE: &'static str = "FINAL FANTASY XIV";

/// Whether `t` occurs in `s` starting at `i`.
pub open spec fn occurs_at(s: Seq<char>, t: Seq<char>, i: int) -> bool {
    0 <= i && i + t.len() <= s.len() && s.subrange(i, i + t.len()) == t
}

/// Whether `t` occurs in `s`.
pub open spec fn occurs_in(s: Seq<char>, t: Seq<char>) -> bool {
    exists|i: int| occurs_at(s, t, i)
}

fn occurs_at_exec(s: &Vec<char>, t: &Vec<char>, i: usize) -> (r: bool)
    requires
        i + t@.len() <= s@.len(),
    ensures
        r == occurs_at(s@, t@, i as int),
{
    let n = s.len();
    let mut k: usize = 0;
    while k < t.len()
        invariant
            k <= t@.len(),
            n == s@.len(),
            i + t@.len() <= s@.len(),
            forall|j: int| 0 <= j < k ==> s@[i + j] == t@[j],
        decreases t@.len() - k,
    {
        if s[i + k] != t[k] {
            assert(s@.subrange(i as int, i + t@.len())[k as int] != t@[k as int]);
            return false;
        }
        k += 1;
    }
    assert(s@.subrange(i as int, i + t@.len()) =~= t@);
    true
}

/// Whether a window title is the game's: it holds "FINAL FANTASY XIV".
pub fn is_game_title(title: &str) -> (r: bool)
    ensures
        r == occurs_in(title@, GAME_TITLE@),
{
    let s = chars_of(title);
    let t = chars_of(GAME_TITLE);
    if t.len() > s.len() {
        assert forall|i: int| !occurs_at(s@, t@, i) by {}
        return false;
    }
    if t.len() == 0 {
        assert(s@.subrange(0, 0) =~= t@);
        assert(occurs_at(s@, t@, 0));
        return true;
    }
    let n = s.len();
    let last = n - t.len();
    let mut i: usize = 0;
    while i <= last
        invariant
            n == s@.len(),
            last + t@.len() == s@.len(),
            t@.len() > 0,
            i <= last + 1,
            s@ == title@,
            t@ == GAME_TITLE@,
            forall|j: int| 0 <= j < i ==> !occurs_at(s@, t@, j),
        decreases last + 1 - i,
    {
        if occurs_at_exec(&s, &t, i) {
            return true;
        }
        i += 1;
    }
    assert forall|j: int| !occurs_at(s@, t@, j) by {
        if 0 <= j < i {
        }
    }
    false
}

} // verus!
