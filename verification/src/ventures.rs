//! The venture assistant: sends retainers whose ventures are done on their
//! next venture.
pub mod retainer;

use vstd::prelude::*;
use crate::input::{Input, Key, repeat};
use crate::xiv::remote::retainer::{Retainer, RetainerTable, retainer_employed, retainer_valid};
use crate::xiv::ui::{
    UiPlan, appended, command_inputs, cursor_down, cursor_left, key_press, press_cancel,
    press_confirm, press_escape, send_key_times, target_nearest_npc, wait,
};

verus! {

/// The input that opens the retainer menu at a summoning bell: close what is
/// open, then target the bell and select it, twice over.
pub open spec fn open_menu_inputs(slow: bool) -> Seq<Input> {
    let target = command_inputs("/tnpc"@, slow);
    key_press(Key::Escape, slow) + key_press(Key::Escape, slow) + key_press(Key::Cancel, slow)
        + key_press(Key::Cancel, slow) + seq![Input::Wait(2000)] + target + seq![Input::Wait(1000)]
        + key_press(Key::Confirm, slow) + seq![Input::Wait(2000)] + key_press(Key::Cancel, slow)
        + key_press(Key::Cancel, slow) + target + seq![Input::Wait(1000)] + key_press(Key::Confirm, slow)
        + seq![Input::Wait(2000)]
}

/// Opens the retainer menu at the nearest summoning bell. The menu is opened
/// twice so that no mouse input the game registered keeps the cursor from
/// showing.
pub fn open_retainer_menu(p: &mut UiPlan)
    ensures
        appended(*old(p), *final(p), open_menu_inputs(old(p).use_slow_navigation)),
{
    press_escape(p);
    press_escape(p);
    press_cancel(p);
    press_cancel(p);
    wait(p, 2000);
    target_nearest_npc(p);
    wait(p, 1000);
    press_confirm(p);
    wait(p, 2000);
    press_cancel(p);
    press_cancel(p);
    target_nearest_npc(p);
    wait(p, 1000);
    press_confirm(p);
    wait(p, 2000);
    assert(p.inputs@ =~= old(p).inputs@ + open_menu_inputs(old(p).use_slow_navigation));
}

/// The input that sends the retainer at menu position `r_id` on its venture
/// again: select the retainer, open the venture entry, reassign, assign,
/// confirm, and leave the retainer.
pub open spec fn reassign_inputs(r_id: nat, slow: bool) -> Seq<Input> {
    let ok = key_press(Key::Confirm, slow);
    repeat(key_press(Key::Down, slow), r_id) + seq![Input::Wait(1000)] + ok + seq![Input::Wait(2000)]
        + ok + seq![Input::Wait(2000)] + repeat(key_press(Key::Down, slow), 5) + seq![Input::Wait(1000)]
        + ok + seq![Input::Wait(2000)] + key_press(Key::Left, slow) + seq![Input::Wait(1000)] + ok
        + seq![Input::Wait(2000)] + key_press(Key::Left, slow) + seq![Input::Wait(1000)] + ok
        + seq![Input::Wait(2000)] + ok + seq![Input::Wait(2000)] + key_press(Key::Cancel, slow)
        + seq![Input::Wait(2000)] + ok + seq![Input::Wait(2000)]
}

/// Sends the retainer at menu position `r_id` on its venture again. Each
/// move in a menu is followed by a second's pause, each button by two.
pub fn reassign_venture(p: &mut UiPlan, r_id: usize)
    ensures
        appended(*old(p), *final(p), reassign_inputs(r_id as nat, old(p).use_slow_navigation)),
{
    send_key_times(p, Key::Down, r_id as u64);
    wait(p, 1000);
    press_confirm(p);
    wait(p, 2000);
    press_confirm(p);
    wait(p, 2000);
    send_key_times(p, Key::Down, 5);
    wait(p, 1000);
    press_confirm(p);
    wait(p, 2000);
    cursor_left(p);
    wait(p, 1000);
    press_confirm(p);
    wait(p, 2000);
    cursor_left(p);
    wait(p, 1000);
    press_confirm(p);
    wait(p, 2000);
    press_confirm(p);
    wait(p, 2000);
    press_cancel(p);
    wait(p, 2000);
    press_confirm(p);
    wait(p, 2000);
    assert(p.inputs@ =~= old(p).inputs@ + reassign_inputs(r_id as nat, old(p).use_slow_navigation));
}

/// Whether every hired retainer's display position is a valid index.
pub open spec fn display_order_ok(t: RetainerTable) -> bool {
    forall|pos: int| 0 <= pos < 10 && retainer_valid(#[trigger] t.retainers@[pos]) ==> t.display_order@[pos] < 10
}

/// The menu position table after recording where each hired retainer shows:
/// entry `j` is the last table index `pos` of a hired retainer shown at `j`,
/// or its old value where there is none.
pub open spec fn display_positions(old_pos: Seq<usize>, t: RetainerTable, upto: int) -> Seq<usize>
    decreases upto,
{
    if upto <= 0 {
        old_pos
    } else {
        let prev = display_positions(old_pos, t, upto - 1);
        let pos = upto - 1;
        if retainer_valid(t.retainers@[pos]) {
            prev.update(t.display_order@[pos] as int, pos as usize)
        } else {
            prev
        }
    }
}

/// The menu position table inverts the retainer table's display order: for
/// each hired retainer at table index `pos` that no later hired retainer
/// shares a menu row with, the entry at its menu row is `pos`; a menu row
/// that no hired retainer shows keeps its old value.
pub proof fn lemma_display_positions_invert(old_pos: Seq<usize>, t: RetainerTable, upto: int)
    requires
        0 <= upto <= 10,
        old_pos.len() == 10,
        display_order_ok(t),
    ensures
        display_positions(old_pos, t, upto).len() == 10,
        forall|pos: int|
            0 <= pos < upto && retainer_valid(#[trigger] t.retainers@[pos]) && (forall|q: int|
                pos < q < upto && retainer_valid(#[trigger] t.retainers@[q]) ==> t.display_order@[q]
                    != t.display_order@[pos]) ==> display_positions(old_pos, t, upto)[t.display_order@[pos] as int]
                == pos,
        forall|j: int|
            0 <= j < 10 && (forall|q: int|
                0 <= q < upto && retainer_valid(#[trigger] t.retainers@[q]) ==> t.display_order@[q] != j)
                ==> #[trigger] display_positions(old_pos, t, upto)[j] == old_pos[j],
    decreases upto,
{
    if upto > 0 {
        lemma_display_positions_invert(old_pos, t, upto - 1);
        let last = upto - 1;
        if retainer_valid(t.retainers@[last]) {
            assert(t.display_order@[last] < 10);
        }
    }
}

/// Records, for each menu position, which hired retainer the bell shows
/// there.
pub fn update_display_order(display_order: &mut Vec<usize>, t: &RetainerTable)
    requires
        old(display_order)@.len() == 10,
        display_order_ok(*t),
    ensures
        final(display_order)@ == display_positions(old(display_order)@, *t, 10),
{
    let mut pos: usize = 0;
    while pos < 10
        invariant
            pos <= 10,
            display_order_ok(*t),
            display_order@.len() == 10,
            display_order@ == display_positions(old(display_order)@, *t, pos as int),
        decreases 10 - pos,
    {
        if t.retainers[pos].is_valid() {
            let r_id = t.display_order[pos] as usize;
            display_order.set(r_id, pos);
        }
        pos += 1;
    }
}

/// The retainer whose venture ends first, folding over `rs[..n]` from
/// `rs[0]`: a retainer replaces the one so far where that one is not on a
/// venture, or where it is on one that ends sooner.
pub open spec fn next_of(rs: Seq<Retainer>, n: int) -> Retainer
    decreases n,
{
    if n <= 0 {
        rs[0]
    } else {
        let acc = next_of(rs, n - 1);
        let r = rs[n - 1];
        if !retainer_employed(acc) || (retainer_employed(r) && r.venture_complete
            < acc.venture_complete) {
            r
        } else {
            acc
        }
    }
}

/// The retainer whose venture ends first.
pub fn next_retainer(rs: &[Retainer; 10]) -> (r: Retainer)
    ensures
        r == next_of(rs@, 10),
{
    let mut acc = rs[0];
    let mut i: usize = 0;
    while i < 10
        invariant
            i <= 10,
            rs@.len() == 10,
            acc == next_of(rs@, i as int),
        decreases 10 - i,
    {
        let r = rs[i];
        if !acc.employed() || (r.employed() && r.venture_complete < acc.venture_complete) {
            acc = r;
        }
        i += 1;
    }
    acc
}

/// Where any retainer is on a venture, the one picked is on a venture and no
/// other venture ends sooner.
pub proof fn lemma_next_retainer_first(rs: Seq<Retainer>, n: int)
    requires
        0 < n <= rs.len(),
    ensures
        (exists|i: int| 0 <= i < n && retainer_employed(#[trigger] rs[i])) ==> retainer_employed(
            next_of(rs, n),
        ),
        forall|i: int|
            0 <= i < n && retainer_employed(#[trigger] rs[i]) ==> next_of(rs, n).venture_complete
                <= rs[i].venture_complete,
    decreases n,
{
    if n > 1 {
        lemma_next_retainer_first(rs, n - 1);
    } else {
        assert(next_of(rs, 0) == rs[0]);
    }
}

/// Whether a venture that completes at `done` (seconds since the epoch, 32
/// bits) is done at `now`; the clock is cut to 32 bits as the game stores it.
pub fn venture_done(done: u32, now: i64) -> (r: bool)
    ensures
        r == (done <= (now as u32)),
{
    done <= now as u32
}

/// How many times a retainer's venture is asked for again before giving
/// up on it for this round.
pub const REASSIGN_TRIES: u32 = 5;

/// The attempts at sending one retainer on its next venture, and whether the
/// retainer menu is open.
#[derive(Copy, Clone, Debug, PartialEq, Eq, Structural)]
pub struct Reassignment {
    pub menu_open: bool,
    pub updated: bool,
    pub retries: u32,
}

impl Reassignment {
    /// No attempt made yet; `menu_open` tells whether the menu is open from
    /// an earlier retainer.
    pub fn new(menu_open: bool) -> (r: Reassignment)
        ensures
            r == (Reassignment { menu_open, updated: false, retries: REASSIGN_TRIES }),
    {
        Reassignment { menu_open, updated: false, retries: REASSIGN_TRIES }
    }

    /// Whether to try (again): the venture did not change yet and tries are
    /// left.
    pub fn wants_attempt(&self) -> (r: bool)
        ensures
            r == (!self.updated && self.retries > 0),
    {
        !self.updated && self.retries > 0
    }

    /// Plans one attempt for the retainer shown at `pos`: opens the menu
    /// where it is not open, then reassigns the venture.
    pub fn attempt(&mut self, p: &mut UiPlan, pos: usize)
        ensures
            appended(
                *old(p),
                *final(p),
                (if old(self).menu_open {
                    Seq::empty()
                } else {
                    open_menu_inputs(old(p).use_slow_navigation)
                }) + reassign_inputs(pos as nat, old(p).use_slow_navigation),
            ),
            *final(self) == (Reassignment { menu_open: true, ..*old(self) }),
    {
        let ghost start = p.inputs@;
        if !self.menu_open {
            open_retainer_menu(p);
            self.menu_open = true;
        }
        let ghost mid = p.inputs@;
        reassign_venture(p, pos);
        assert(p.inputs@ =~= start + ((if old(self).menu_open {
            Seq::empty()
        } else {
            open_menu_inputs(old(p).use_slow_navigation)
        }) + reassign_inputs(pos as nat, old(p).use_slow_navigation)));
    }

    /// Records what the game shows after an attempt: a completion time other
    /// than `done`, the one before, means the venture was assigned; else the
    /// menu is taken as closed and one try is used up.
    pub fn record(&mut self, complete_now: u32, done: u32)
        requires
            old(self).retries > 0,
        ensures
            complete_now != done ==> *final(self) == (Reassignment { updated: true, ..*old(self) }),
            complete_now == done ==> *final(self) == (Reassignment {
                menu_open: false,
                updated: old(self).updated,
                retries: (old(self).retries - 1) as u32,
            }),
    {
        if complete_now != done {
            self.updated = true;
        } else {
            self.menu_open = false;
            self.retries = self.retries - 1;
        }
    }
}

/// Every attempt either ends the attempts or uses up a try, so a retainer
/// gets at most five attempts in a round.
pub proof fn lemma_attempts_end(before: Reassignment, after: Reassignment, complete_now: u32, done: u32)
    requires
        before.retries > 0,
        complete_now != done ==> after == (Reassignment { updated: true, ..before }),
        complete_now == done ==> after == (Reassignment {
            menu_open: false,
            updated: before.updated,
            retries: (before.retries - 1) as u32,
        }),
    ensures
        after.updated || after.retries < before.retries,
{
}

/// Ends a round over the retainers: leaves the menu where it is open.
pub fn finish_round(p: &mut UiPlan, menu_open: bool)
    ensures
        appended(
            *old(p),
            *final(p),
            if menu_open {
                key_press(Key::Cancel, old(p).use_slow_navigation)
            } else {
                Seq::empty()
            },
        ),
{
    if menu_open {
        press_cancel(p);
    } else {
        assert(p.inputs@ =~= old(p).inputs@ + Seq::<Input>::empty());
    }
}

} // verus!
