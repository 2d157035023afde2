//! The crafting engine's decisions: the input that changes gear sets, finds
//! a recipe, picks materials and uses actions, and the progress of each
//! task. The caller runs the loop: it carries out the planned input, asks
//! whether to go on between crafts, and reports progress.
use vstd::prelude::*;
use crate::input::{Input, Key, repeat};
use crate::talan::action::Action;
use crate::talan::config::Options;
use crate::talan::macros::Macro;
use crate::talan::task::{MaterialCount, Status, Task};
use crate::text::{int_text, push_i32, push_str};
use crate::xiv::JOB_CNT;
use crate::xiv::ui::{
    UiPlan, appended, clear_inputs, clear_window, command_inputs, cursor_down, cursor_left,
    cursor_right, cursor_up, key_press, press_confirm, press_enter, press_escape, send_key,
    send_key_times, send_string, text_inputs, wait, UI_DELAY_MS, UI_DELAY_SLOW_MS,
};
use crate::talan::recipe::RecipeMaterial;

verus! {

/// Milliseconds added to each action's wait to allow for latency.
pub const GCD_PADDING: u64 = 250;

/// `k` pressed `n` times.
pub open spec fn presses(k: Key, n: nat, slow: bool) -> Seq<Input> {
    repeat(key_press(k, slow), n)
}

/// Changing to gear set `gear`: the chat command, half a second, enter, and
/// a second for the job to change before the crafting log opens.
pub open spec fn gearset_inputs(gear: int, slow: bool) -> Seq<Input> {
    key_press(Key::Enter, slow) + text_inputs("/gearset change "@ + int_text(gear)) + seq![
        Input::Wait(500),
    ] + key_press(Key::Enter, slow) + seq![Input::Wait(1000)]
}

/// Opening the crafting log (`N`), then a second.
pub open spec fn open_log_inputs(slow: bool) -> Seq<Input> {
    key_press(Key::Code(78), slow) + seq![Input::Wait(1000)]
}

/// Finding a recipe: open the log, go back one tab more than the job's
/// index to reach the search box, type the name, search, move down to the
/// recipe's position and select it, leaving the cursor on Synthesize.
pub open spec fn select_recipe_inputs(task: Task, slow: bool) -> Seq<Input> {
    open_log_inputs(slow) + presses(Key::Backward, (task.recipe.job + 2) as nat, slow) + key_press(
        Key::Confirm,
        slow,
    ) + seq![Input::Wait(1000)] + text_inputs(task.recipe.name@) + key_press(Key::Enter, slow)
        + seq![Input::Wait(1000)] + presses(Key::Down, task.recipe.index as nat, slow) + key_press(
        Key::Confirm,
        slow,
    )
}

/// The walk up the materials from the bottom: each material's count of
/// confirms, moving up after each but the topmost.
pub open spec fn any_up_inputs(mats: Seq<RecipeMaterial>, k: nat, slow: bool) -> Seq<Input>
    decreases k,
{
    if k == 0 {
        Seq::empty()
    } else {
        let n = mats.len();
        let m = mats[n - k];
        any_up_inputs(mats, (k - 1) as nat, slow) + presses(Key::Confirm, m.count as nat, slow) + (if k
            - 1 != n - 1 {
            key_press(Key::Up, slow)
        } else {
            Seq::empty()
        })
    }
}

/// The walk down the materials: each material's count of confirms, then
/// down.
pub open spec fn any_down_inputs(mats: Seq<RecipeMaterial>, k: nat, slow: bool) -> Seq<Input>
    decreases k,
{
    if k == 0 {
        Seq::empty()
    } else {
        any_down_inputs(mats, (k - 1) as nat, slow) + presses(Key::Confirm, mats[k - 1].count as nat, slow)
            + key_press(Key::Down, slow)
    }
}

/// Picking any quality of material: from the bottom material's HQ column up
/// (confirming its count on each), then left to the NQ column and down.
pub open spec fn any_materials_inputs(mats: Seq<RecipeMaterial>, slow: bool) -> Seq<Input> {
    key_press(Key::Up, slow) + key_press(Key::Right, slow) + key_press(Key::Right, slow) + any_up_inputs(
        mats,
        mats.len(),
        slow,
    ) + key_press(Key::Left, slow) + any_down_inputs(mats, mats.len(), slow)
}

/// How many times `k` is pressed in `s`.
pub open spec fn key_count(s: Seq<Input>, k: Key) -> nat
    decreases s.len(),
{
    if s.len() == 0 {
        0
    } else {
        key_count(s.drop_last(), k) + (if s.last() == Input::KeyDown(k) { 1nat } else { 0nat })
    }
}

/// The input of `s` after the last press of `k` (all of `s` where `k` is
/// never pressed).
pub open spec fn after_last_press(s: Seq<Input>, k: Key) -> Seq<Input>
    decreases s.len(),
{
    if s.len() == 0 {
        s
    } else if s.last() == Input::KeyDown(k) {
        Seq::empty()
    } else {
        after_last_press(s.drop_last(), k).push(s.last())
    }
}

/// The units of the first `n` materials of `mats`.
pub open spec fn material_units(mats: Seq<RecipeMaterial>, n: nat) -> nat
    decreases n,
{
    if n == 0 || n > mats.len() {
        0
    } else {
        material_units(mats, (n - 1) as nat) + mats[n - 1].count as nat
    }
}

proof fn lemma_key_count_append(a: Seq<Input>, b: Seq<Input>, k: Key)
    ensures
        key_count(a + b, k) == key_count(a, k) + key_count(b, k),
    decreases b.len(),
{
    if b.len() == 0 {
        assert(a + b =~= a);
    } else {
        lemma_key_count_append(a, b.drop_last(), k);
        assert((a + b).drop_last() =~= a + b.drop_last());
        assert((a + b).last() == b.last());
    }
}

proof fn lemma_after_last_append(a: Seq<Input>, b: Seq<Input>, k: Key)
    requires
        key_count(b, k) == 0,
    ensures
        after_last_press(a + b, k) == after_last_press(a, k) + b,
    decreases b.len(),
{
    if b.len() == 0 {
        assert(a + b =~= a);
        assert(after_last_press(a, k) + b =~= after_last_press(a, k));
    } else {
        lemma_after_last_append(a, b.drop_last(), k);
        assert((a + b).drop_last() =~= a + b.drop_last());
        assert((a + b).last() == b.last());
        assert(after_last_press(a, k) + b =~= (after_last_press(a, k) + b.drop_last()).push(b.last()));
    }
}

proof fn lemma_key_press_count(p: Key, slow: bool, k: Key)
    ensures
        key_count(key_press(p, slow), k) == (if p == k { 1nat } else { 0nat }),
{
    let s = key_press(p, slow);
    let s1 = s.drop_last();
    let s2 = s1.drop_last();
    assert(s2.drop_last() =~= Seq::<Input>::empty());
    assert(s2.last() == Input::KeyDown(p));
    assert(s1.last() == Input::KeyUp(p));
    assert(key_count(s2.drop_last(), k) == 0);
    assert(key_count(s2, k) == (if p == k { 1nat } else { 0nat }));
    assert(key_count(s1, k) == key_count(s2, k));
}

proof fn lemma_presses_count(p: Key, n: nat, slow: bool, k: Key)
    ensures
        key_count(presses(p, n, slow), k) == (if p == k { n } else { 0nat }),
    decreases n,
{
    if n > 0 {
        lemma_presses_count(p, (n - 1) as nat, slow, k);
        lemma_key_count_append(presses(p, (n - 1) as nat, slow), key_press(p, slow), k);
        lemma_key_press_count(p, slow, k);
    }
}

proof fn lemma_down_walk_counts(mats: Seq<RecipeMaterial>, n: nat, slow: bool)
    requires
        n <= mats.len(),
    ensures
        key_count(any_down_inputs(mats, n, slow), Key::Confirm) == material_units(mats, n),
        key_count(any_down_inputs(mats, n, slow), Key::Down) == n,
        key_count(any_down_inputs(mats, n, slow), Key::Left) == 0,
    decreases n,
{
    if n > 0 {
        let prev = any_down_inputs(mats, (n - 1) as nat, slow);
        let c = presses(Key::Confirm, mats[n - 1].count as nat, slow);
        let d = key_press(Key::Down, slow);
        lemma_down_walk_counts(mats, (n - 1) as nat, slow);
        assert(any_down_inputs(mats, n, slow) == prev + c + d);
        lemma_key_count_append(prev, c, Key::Confirm);
        lemma_key_count_append(prev + c, d, Key::Confirm);
        lemma_key_count_append(prev, c, Key::Down);
        lemma_key_count_append(prev + c, d, Key::Down);
        lemma_key_count_append(prev, c, Key::Left);
        lemma_key_count_append(prev + c, d, Key::Left);
        lemma_presses_count(Key::Confirm, mats[n - 1].count as nat, slow, Key::Confirm);
        lemma_presses_count(Key::Confirm, mats[n - 1].count as nat, slow, Key::Down);
        lemma_presses_count(Key::Confirm, mats[n - 1].count as nat, slow, Key::Left);
        lemma_key_press_count(Key::Down, slow, Key::Confirm);
        lemma_key_press_count(Key::Down, slow, Key::Down);
        lemma_key_press_count(Key::Down, slow, Key::Left);
    }
}

/// Where the task does not specify materials, the last move left brings
/// the cursor to the NQ column, and after it each material's count is
/// confirmed, the cursor moving down once per material: the input after the
/// last press of Left confirms as many times as the recipe has units of
/// material and moves down once for each material.
pub proof fn lemma_any_materials_confirm_counts(mats: Seq<RecipeMaterial>, slow: bool)
    ensures
        key_count(after_last_press(any_materials_inputs(mats, slow), Key::Left), Key::Confirm)
            == material_units(mats, mats.len()),
        key_count(after_last_press(any_materials_inputs(mats, slow), Key::Left), Key::Down) == mats.len(),
        key_count(any_materials_inputs(mats, slow), Key::Left) >= 1,
{
    let head = key_press(Key::Up, slow) + key_press(Key::Right, slow) + key_press(Key::Right, slow)
        + any_up_inputs(mats, mats.len(), slow);
    let left = key_press(Key::Left, slow);
    let down = any_down_inputs(mats, mats.len(), slow);
    assert(any_materials_inputs(mats, slow) == head + left + down);
    lemma_down_walk_counts(mats, mats.len(), slow);
    lemma_after_last_append(head + left, down, Key::Left);
    // After the press of Left only its release and pause remain.
    let hl = head + left;
    assert(hl.drop_last().drop_last().last() == Input::KeyDown(Key::Left));
    assert(hl.drop_last().last() == Input::KeyUp(Key::Left));
    assert(hl.last() == Input::Wait(if slow { UI_DELAY_SLOW_MS } else { UI_DELAY_MS }));
    assert(after_last_press(hl.drop_last().drop_last(), Key::Left) == Seq::<Input>::empty());
    assert(after_last_press(hl.drop_last(), Key::Left) == Seq::<Input>::empty().push(Input::KeyUp(Key::Left)));
    let tail = seq![Input::KeyUp(Key::Left), hl.last()];
    assert(after_last_press(hl, Key::Left) == Seq::<Input>::empty().push(Input::KeyUp(Key::Left)).push(hl.last()));
    assert(after_last_press(hl, Key::Left) =~= tail);
    assert(tail.drop_last().drop_last() =~= Seq::<Input>::empty());
    assert(tail.drop_last().last() == Input::KeyUp(Key::Left));
    assert(key_count(tail.drop_last().drop_last(), Key::Confirm) == 0);
    assert(key_count(tail.drop_last(), Key::Confirm) == 0);
    assert(key_count(tail, Key::Confirm) == 0);
    assert(key_count(tail.drop_last().drop_last(), Key::Down) == 0);
    assert(key_count(tail.drop_last(), Key::Down) == 0);
    assert(key_count(tail, Key::Down) == 0);
    lemma_key_count_append(tail, down, Key::Confirm);
    lemma_key_count_append(tail, down, Key::Down);
    lemma_key_count_append(head, left, Key::Left);
    lemma_key_count_append(hl, down, Key::Left);
    lemma_key_press_count(Key::Left, slow, Key::Left);
}

/// The HQ units still to pick of `mq`.
pub open spec fn hq_sum(mq: Seq<MaterialCount>) -> nat
    decreases mq.len(),
{
    if mq.len() == 0 {
        0
    } else {
        hq_sum(mq.drop_last()) + mq.last().hq as nat
    }
}

/// Walking up the HQ column from the bottom material (the last of `mq`),
/// `i` materials up already, with `remaining` HQ units to pick: confirm the
/// material's HQ count; move up while units remain, else back down to the
/// Synthesize button.
pub open spec fn hq_inputs(mq: Seq<MaterialCount>, remaining: int, i: nat, slow: bool) -> Seq<Input>
    decreases mq.len(),
{
    if mq.len() == 0 {
        Seq::empty()
    } else {
        let m = mq.last();
        let r = remaining - m.hq;
        presses(Key::Confirm, m.hq as nat, slow) + (if r > 0 {
            key_press(Key::Up, slow) + hq_inputs(mq.drop_last(), r, i + 1, slow)
        } else {
            presses(Key::Down, i + 1, slow)
        })
    }
}

/// Picking materials for a task: any quality unless the task specifies the
/// qualities; with specified qualities, nothing where no HQ unit is wanted,
/// else up to the HQ column of the bottom material and up it.
pub open spec fn materials_inputs(task: Task, slow: bool) -> Seq<Input> {
    if !task.specify_materials {
        any_materials_inputs(task.recipe.mats@, slow)
    } else if hq_sum(task.mat_quality@) == 0 {
        Seq::empty()
    } else {
        key_press(Key::Up, slow) + key_press(Key::Right, slow) + key_press(Key::Right, slow) + hq_inputs(
            task.mat_quality@,
            hq_sum(task.mat_quality@) as int,
            0,
            slow,
        )
    }
}

/// Whether the HQ units wanted by `task` can be counted in a `u32`.
pub open spec fn hq_fits(task: Task) -> bool {
    hq_sum(task.mat_quality@) <= u32::MAX
}

/// Changes to gear set `gear`.
pub fn change_gearset(p: &mut UiPlan, gear: i32)
    ensures
        appended(*old(p), *final(p), gearset_inputs(gear as int, old(p).use_slow_navigation)),
{
    press_enter(p);
    let mut command = "/gearset change ".to_string();
    push_i32(&mut command, gear);
    send_string(p, command.as_str());
    wait(p, 500);
    press_enter(p);
    wait(p, 1000);
    assert(p.inputs@ =~= old(p).inputs@ + gearset_inputs(gear as int, old(p).use_slow_navigation));
}

/// Opens the crafting log.
pub fn open_craft_window(p: &mut UiPlan)
    ensures
        appended(*old(p), *final(p), open_log_inputs(old(p).use_slow_navigation)),
{
    send_key(p, Key::Code('N' as i32));
    wait(p, 1000);
    assert(p.inputs@ =~= old(p).inputs@ + open_log_inputs(old(p).use_slow_navigation));
}

/// Selects the task's recipe, leaving the cursor on Synthesize.
pub fn select_recipe(p: &mut UiPlan, task: &Task)
    requires
        task.recipe.job < JOB_CNT,
    ensures
        appended(*old(p), *final(p), select_recipe_inputs(*task, old(p).use_slow_navigation)),
{
    open_craft_window(p);
    send_key_times(p, Key::Backward, (task.recipe.job + 2) as u64);
    press_confirm(p);
    wait(p, 1000);
    send_string(p, task.recipe.name.as_str());
    press_enter(p);
    wait(p, 1000);
    send_key_times(p, Key::Down, task.recipe.index as u64);
    press_confirm(p);
    assert(p.inputs@ =~= old(p).inputs@ + select_recipe_inputs(*task, old(p).use_slow_navigation));
}

/// Picks any quality of each material.
pub fn select_any_materials(p: &mut UiPlan, task: &Task)
    ensures
        appended(*old(p), *final(p), any_materials_inputs(task.recipe.mats@, old(p).use_slow_navigation)),
{
    let ghost slow = p.use_slow_navigation;
    let mats = &task.recipe.mats;
    let n = mats.len();
    cursor_up(p);
    cursor_right(p);
    cursor_right(p);
    let ghost head = p.inputs@;
    let mut k: usize = 0;
    while k < n
        invariant
            k <= n == mats@.len(),
            p.use_slow_navigation == slow,
            p.inputs@ == head + any_up_inputs(mats@, k as nat, slow),
        decreases n - k,
    {
        let material = &mats[n - 1 - k];
        send_key_times(p, Key::Confirm, material.count as u64);
        if k != n - 1 {
            cursor_up(p);
        }
        assert(p.inputs@ =~= head + any_up_inputs(mats@, (k + 1) as nat, slow));
        k += 1;
    }
    cursor_left(p);
    let ghost mid = p.inputs@;
    let mut j: usize = 0;
    while j < n
        invariant
            j <= n == mats@.len(),
            p.use_slow_navigation == slow,
            p.inputs@ == mid + any_down_inputs(mats@, j as nat, slow),
        decreases n - j,
    {
        send_key_times(p, Key::Confirm, mats[j].count as u64);
        cursor_down(p);
        assert(p.inputs@ =~= mid + any_down_inputs(mats@, (j + 1) as nat, slow));
        j += 1;
    }
    assert(p.inputs@ =~= old(p).inputs@ + any_materials_inputs(mats@, slow));
}

/// Picks the task's materials: the specified number of HQ units of each,
/// or any quality where the task does not specify them.
pub fn select_materials(p: &mut UiPlan, task: &Task)
    requires
        hq_fits(*task),
    ensures
        appended(*old(p), *final(p), materials_inputs(*task, old(p).use_slow_navigation)),
{
    let ghost slow = p.use_slow_navigation;
    if !task.specify_materials {
        select_any_materials(p, task);
        return;
    }
    let mq = &task.mat_quality;
    let n = mq.len();
    let mut total: u32 = 0;
    let mut j: usize = 0;
    while j < n
        invariant
            j <= n == mq@.len(),
            hq_sum(mq@) <= u32::MAX,
            total == hq_sum(mq@.take(j as int)),
        decreases n - j,
    {
        assert(mq@.take(j + 1).drop_last() == mq@.take(j as int));
        proof {
            lemma_hq_sum_prefix(mq@, j + 1);
        }
        total = total + mq[j].hq;
        j += 1;
    }
    assert(mq@.take(n as int) == mq@);
    let mut hq_mats = total;
    if hq_mats == 0 {
        assert(p.inputs@ =~= old(p).inputs@ + materials_inputs(*task, slow));
        return;
    }
    cursor_up(p);
    cursor_right(p);
    cursor_right(p);
    let ghost head = p.inputs@;
    let ghost whole = hq_inputs(mq@, total as int, 0, slow);
    let mut acc_ok = true;
    let mut i: usize = 0;
    assert(mq@.take(n as int) == mq@);
    while i < n
        invariant_except_break
            i <= n == mq@.len(),
            p.use_slow_navigation == slow,
            hq_mats == hq_sum(mq@.take(n - i)),
            hq_mats > 0,
            whole == hq_inputs(mq@, total as int, 0, slow),
            head + whole == p.inputs@ + hq_inputs(mq@.take(n - i), hq_mats as int, i as nat, slow),
        ensures
            p.use_slow_navigation == slow,
            p.inputs@ == head + whole,
        decreases n - i,
    {
        let ghost pre = mq@.take(n - i);
        let m = mq[n - 1 - i];
        assert(pre.last() == m);
        assert(pre.drop_last() == mq@.take(n - i - 1));
        let ghost before = p.inputs@;
        send_key_times(p, Key::Confirm, m.hq as u64);
        hq_mats = hq_mats - m.hq;
        if hq_mats > 0 {
            cursor_up(p);
            assert(before + hq_inputs(pre, (hq_mats + m.hq) as int, i as nat, slow) =~= p.inputs@
                + hq_inputs(mq@.take(n - i - 1), hq_mats as int, (i + 1) as nat, slow));
        } else {
            send_key_times(p, Key::Down, (i + 1) as u64);
            assert(p.inputs@ =~= before + hq_inputs(pre, (hq_mats + m.hq) as int, i as nat, slow));
            break;
        }
        i += 1;
    }
    proof {
        if i == n {
            assert(hq_sum(mq@.take(0)) == 0);
        }
    }
    assert(p.inputs@ =~= old(p).inputs@ + materials_inputs(*task, slow));
}

proof fn lemma_hq_sum_prefix(mq: Seq<MaterialCount>, j: int)
    requires
        0 <= j <= mq.len(),
    ensures
        hq_sum(mq.take(j)) <= hq_sum(mq),
    decreases mq.len(),
{
    if j < mq.len() {
        lemma_hq_sum_prefix(mq.drop_last(), j);
        assert(mq.drop_last().take(j) == mq.take(j));
    } else {
        assert(mq.take(j) == mq);
    }
}


/// The pause before the first action of a craft, in milliseconds, while the
/// crafting window comes up.
pub const FIRST_ACTION_DELAY_MS: u64 = 2000;

/// The chat command that uses the action called `name`.
pub open spec fn action_command_text(name: Seq<char>) -> Seq<char> {
    "/ac \""@ + name + "\""@
}

/// The input that starts a task: a change of gear set where the character
/// is in another job than the recipe's, the search for the recipe and, but
/// for trial synthesis, the choice of materials.
pub open spec fn task_start_inputs(job: u32, options: Options, task: Task, slow: bool) -> Seq<Input> {
    (if job != task.recipe.job {
        gearset_inputs(options.gear@[task.recipe.job as int] as int, slow)
    } else {
        Seq::empty()
    }) + select_recipe_inputs(task, slow) + (if !options.use_trial_synthesis {
        materials_inputs(task, slow)
    } else {
        Seq::empty()
    })
}

/// The input that starts a craft from the Synthesize button (from Trial
/// Synthesis, two to its left, where the options ask for it).
pub open spec fn synthesis_start_inputs(trial: bool, slow: bool) -> Seq<Input> {
    (if trial {
        key_press(Key::Left, slow) + key_press(Key::Left, slow)
    } else {
        Seq::empty()
    }) + key_press(Key::Confirm, slow)
}

/// The state of a run over a list of tasks: the progress of each and the
/// job the character was last put in.
pub struct Crafter<'a> {
    pub options: &'a Options,
    pub macros: &'a [Macro],
    pub tasks: &'a [Task],
    pub status: Vec<Status>,
    /// The job last changed to; a value past every job before the first.
    pub job: u32,
}

/// Whether `s` is the progress of `t` before anything was crafted.
pub open spec fn fresh_status(s: Status, t: Task) -> bool {
    s.name@ == t.recipe.name@ && s.finished == 0 && s.total == t.quantity
}

impl<'a> Crafter<'a> {
    /// A run over `tasks`, none of them started.
    pub fn new(options: &'a Options, macros: &'a [Macro], tasks: &'a [Task]) -> (c: Crafter<'a>)
        ensures
            c.options == options,
            c.macros@ == macros@,
            c.tasks@ == tasks@,
            c.job == 256,
            c.status@.len() == tasks@.len(),
            forall|i: int| 0 <= i < tasks@.len() ==> fresh_status(#[trigger] c.status@[i], tasks@[i]),
    {
        let mut status: Vec<Status> = Vec::new();
        let mut i: usize = 0;
        while i < tasks.len()
            invariant
                i <= tasks@.len(),
                status@.len() == i,
                forall|j: int| 0 <= j < i ==> fresh_status(#[trigger] status@[j], tasks@[j]),
            decreases tasks@.len() - i,
        {
            status.push(Status::from(&tasks[i]));
            i += 1;
        }
        Crafter { options, macros, tasks, status, job: 256 }
    }

    /// Gets the game window into a state to trust before the first task,
    /// where the options ask for it.
    pub fn start(&self, p: &mut UiPlan)
        ensures
            appended(
                *old(p),
                *final(p),
                if self.options.should_clear_window_on_craft {
                    clear_inputs(old(p).use_slow_navigation)
                } else {
                    Seq::empty()
                },
            ),
    {
        if self.options.should_clear_window_on_craft {
            clear_window(p);
        } else {
            assert(p.inputs@ =~= old(p).inputs@ + Seq::<Input>::empty());
        }
    }

    /// Starts task `i`: changes the gear set where the job differs from the
    /// last one, finds the recipe and, but for trial synthesis, picks the
    /// materials. Afterwards the character is in the recipe's job.
    pub fn begin_task(&mut self, i: usize, p: &mut UiPlan)
        requires
            i < old(self).tasks@.len(),
            old(self).tasks@[i as int].recipe.job < JOB_CNT,
            old(self).options.gear@[old(self).tasks@[i as int].recipe.job as int] != 0,
            hq_fits(old(self).tasks@[i as int]),
        ensures
            appended(
                *old(p),
                *final(p),
                task_start_inputs(
                    old(self).job,
                    *old(self).options,
                    old(self).tasks@[i as int],
                    old(p).use_slow_navigation,
                ),
            ),
            final(self).job == old(self).tasks@[i as int].recipe.job,
            final(self).status@ == old(self).status@,
            final(self).options == old(self).options,
            final(self).macros@ == old(self).macros@,
            final(self).tasks@ == old(self).tasks@,
    {
        let ghost slow = p.use_slow_navigation;
        let task = &self.tasks[i];
        let task_job = task.recipe.job;
        if self.job != task_job {
            change_gearset(p, self.options.gear[task_job as usize]);
            self.job = task_job;
        }
        let ghost mid = p.inputs@;
        select_recipe(p, task);
        if !self.options.use_trial_synthesis {
            select_materials(p, task);
        }
        assert(p.inputs@ =~= old(p).inputs@ + task_start_inputs(
            old(self).job,
            *old(self).options,
            old(self).tasks@[i as int],
            slow,
        ));
    }

    /// The actions of the macro that task `i` uses.
    pub fn task_actions(&self, i: usize) -> (r: &'a [Action])
        requires
            i < self.tasks@.len(),
            self.tasks@[i as int].macro_id < self.macros@.len(),
        ensures
            r@ == self.macros@[self.tasks@[i as int].macro_id as int].actions@,
    {
        self.macros[self.tasks[i].macro_id].actions.as_slice()
    }

    /// Starts a craft from the Synthesize button, or from Trial Synthesis
    /// where the options ask for it.
    pub fn begin_synthesis(&self, p: &mut UiPlan)
        ensures
            appended(
                *old(p),
                *final(p),
                synthesis_start_inputs(self.options.use_trial_synthesis, old(p).use_slow_navigation),
            ),
    {
        if self.options.use_trial_synthesis {
            cursor_left(p);
            cursor_left(p);
        }
        press_confirm(p);
        assert(p.inputs@ =~= old(p).inputs@ + synthesis_start_inputs(
            self.options.use_trial_synthesis,
            old(p).use_slow_navigation,
        ));
    }

    /// Counts one more item of task `i` as crafted, then pauses two seconds
    /// before the next.
    pub fn finish_item(&mut self, i: usize, p: &mut UiPlan)
        requires
            i < old(self).status@.len(),
            old(self).status@[i as int].finished < u32::MAX,
        ensures
            final(self).status@.len() == old(self).status@.len(),
            final(self).status@[i as int].finished == old(self).status@[i as int].finished + 1,
            final(self).status@[i as int].name@ == old(self).status@[i as int].name@,
            final(self).status@[i as int].total == old(self).status@[i as int].total,
            forall|j: int|
                0 <= j < old(self).status@.len() && j != i ==> #[trigger] final(self).status@[j]
                    == old(self).status@[j],
            final(self).job == old(self).job,
            final(self).options == old(self).options,
            final(self).macros@ == old(self).macros@,
            final(self).tasks@ == old(self).tasks@,
            appended(*old(p), *final(p), seq![Input::Wait(2000)]),
    {
        let s = Status {
            name: self.status[i].name.clone(),
            finished: self.status[i].finished + 1,
            total: self.status[i].total,
        };
        self.status.set(i, s);
        wait(p, 2000);
    }
}

/// Types the command that queues `action` (enter, then the command); the
/// enter that sends it comes when its turn is due.
pub fn queue_action(p: &mut UiPlan, action: &Action)
    ensures
        appended(
            *old(p),
            *final(p),
            key_press(Key::Enter, old(p).use_slow_navigation) + text_inputs(action_command_text(action.name@)),
        ),
{
    press_enter(p);
    let mut command = "/ac \"".to_string();
    push_str(&mut command, action.name);
    push_str(&mut command, "\"");
    send_string(p, command.as_str());
    assert(p.inputs@ =~= old(p).inputs@ + (key_press(Key::Enter, old(p).use_slow_navigation)
        + text_inputs(action_command_text(action.name@))));
}

/// How long after `action` is sent the next one is due, in milliseconds:
/// its wait and the padding for latency.
pub fn next_action_delay(action: &Action) -> (r: u64)
    requires
        action.wait_ms + GCD_PADDING <= u64::MAX,
    ensures
        r == action.wait_ms + GCD_PADDING,
{
    action.wait_ms + GCD_PADDING
}

/// Ends a craft once its last action is done: three seconds for the
/// crafting log to return, then Synthesize is selected again.
pub fn end_synthesis(p: &mut UiPlan)
    ensures
        appended(*old(p), *final(p), seq![Input::Wait(3000)] + key_press(Key::Confirm, old(p).use_slow_navigation)),
{
    wait(p, 3000);
    press_confirm(p);
    assert(p.inputs@ =~= old(p).inputs@ + (seq![Input::Wait(3000)] + key_press(Key::Confirm, old(p).use_slow_navigation)));
}

/// Ends a task: closes the crafting log and pauses two seconds.
pub fn finish_task(p: &mut UiPlan)
    ensures
        appended(*old(p), *final(p), key_press(Key::Escape, old(p).use_slow_navigation) + seq![Input::Wait(2000)]),
{
    press_escape(p);
    wait(p, 2000);
    assert(p.inputs@ =~= old(p).inputs@ + (key_press(Key::Escape, old(p).use_slow_navigation) + seq![Input::Wait(2000)]));
}

} // verus!
