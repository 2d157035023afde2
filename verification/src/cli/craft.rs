//! Crafting with the command-line tool, planned as input to the game
//! window: clear the windows, open the crafting log, find the recipe and run
//! the macro once per item.
use vstd::prelude::*;
use crate::cli::macros::Action;
use crate::cli::task::Task;
use crate::cli::ui::{
    Plan, cancel, char_input, confirm, cursor_down, enter, escape, key, move_backward,
    open_craft_window, send_char, send_key_times, text, wait_ms, wait_secs,
};
use crate::input::{Input, Key, repeat};
use crate::text::push_str;

verus! {

/// Typing the text `s`.
pub fn send_string(p: &mut Plan, s: &str)
    ensures
        final(p).inputs@ == old(p).inputs@ + text(s@),
{
    for c in it: s.chars()
        invariant
            it.seq() == s@,
            p.inputs@ == old(p).inputs@ + text(it.seq().take(it.index() as int)),
    {
        let ghost k = it.index();
        send_char(p, c);
        assert(it.seq().take(k + 1).drop_last() == it.seq().take(k as int));
        assert(it.seq().take(k + 1).last() == c);
        assert(p.inputs@ =~= old(p).inputs@ + text(it.seq().take(k + 1)));
    }
    assert(s@.take(s@.len() as int) == s@);
}

/// The chat command that uses action `a`.
pub open spec fn action_command(a: Seq<char>) -> Seq<char> {
    "/ac \""@ + a + "\"\n"@
}

/// Using action `a`: enter, the command, 50 ms, enter.
pub open spec fn action_inputs(a: Seq<char>) -> Seq<Input> {
    key(Key::Enter) + text(action_command(a)) + seq![Input::Wait(50)] + key(Key::Enter)
}

/// Uses the action named `action` through the chat input.
pub fn send_action(p: &mut Plan, action: &str)
    ensures
        final(p).inputs@ == old(p).inputs@ + action_inputs(action@),
{
    enter(p);
    let mut command = "/ac \"".to_string();
    push_str(&mut command, action);
    push_str(&mut command, "\"\n");
    send_string(p, command.as_str());
    wait_ms(p, 50);
    enter(p);
    assert(p.inputs@ =~= old(p).inputs@ + action_inputs(action@));
}

/// Switching collectable synthesis on or off.
pub open spec fn toggle_inputs() -> Seq<Input> {
    action_inputs("collectable synthesis"@)
}

/// Switches collectable synthesis on or off.
pub fn toggle_collectable(p: &mut Plan)
    ensures
        final(p).inputs@ == old(p).inputs@ + toggle_inputs(),
{
    send_action(p, "collectable synthesis");
}

/// Closing every window: escape ten times, cancel twice, a second's pause.
pub open spec fn clear_inputs() -> Seq<Input> {
    repeat(key(Key::Escape), 10) + key(Key::Cancel) + key(Key::Cancel) + seq![Input::Wait(1000)]
}

/// Closes every window; cancelling twice closes the system menu too.
pub fn clear_windows(p: &mut Plan)
    ensures
        final(p).inputs@ == old(p).inputs@ + clear_inputs(),
{
    send_key_times(p, Key::Escape, 10);
    cancel(p);
    cancel(p);
    wait_secs(p, 1);
    assert(p.inputs@ =~= old(p).inputs@ + clear_inputs());
}

/// Finding the recipe of `name` at search position `index`: back to the
/// search box from any job's tab, type the name, search, then move down to
/// the recipe and select it.
pub open spec fn select_inputs(name: Seq<char>, index: u64) -> Seq<Input> {
    repeat(key(Key::Backward), 9) + key(Key::Confirm) + text(name) + seq![Input::Wait(200)] + key(
        Key::Enter,
    ) + seq![Input::Wait(1000)] + repeat(key(Key::Down), index as nat) + key(Key::Confirm)
}

/// Selects the recipe of the task in the crafting log.
pub fn select_recipe(p: &mut Plan, task: &Task)
    ensures
        final(p).inputs@ == old(p).inputs@ + select_inputs(task.item.name@, task.index),
{
    send_key_times(p, Key::Backward, 9);
    confirm(p);
    send_string(p, task.item.name.as_str());
    wait_ms(p, 200);
    enter(p);
    wait_secs(p, 1);
    send_key_times(p, Key::Down, task.index);
    confirm(p);
    assert(p.inputs@ =~= old(p).inputs@ + select_inputs(task.item.name@, task.index));
}

/// Running the actions of a macro: each action, then 1.7 s after a
/// two-second action and 2.2 s after any other.
pub open spec fn actions_inputs(actions: Seq<Action>) -> Seq<Input>
    decreases actions.len(),
{
    if actions.len() == 0 {
        Seq::empty()
    } else {
        let a = actions.last();
        actions_inputs(actions.drop_last()) + action_inputs(a.name@) + seq![
            Input::Wait(if a.wait == 2 { 1700 } else { 2200 }),
        ]
    }
}

/// Runs the actions of a macro.
pub fn execute_actions(p: &mut Plan, actions: &Vec<Action>)
    ensures
        final(p).inputs@ == old(p).inputs@ + actions_inputs(actions@),
{
    let mut i: usize = 0;
    while i < actions.len()
        invariant
            i <= actions@.len(),
            p.inputs@ == old(p).inputs@ + actions_inputs(actions@.take(i as int)),
        decreases actions@.len() - i,
    {
        let action = &actions[i];
        send_action(p, action.name.as_str());
        if action.wait == 2 {
            wait_ms(p, 1700);
        } else {
            wait_ms(p, 2200);
        }
        assert(actions@.take(i + 1).drop_last() == actions@.take(i as int));
        assert(actions@.take(i + 1).last() == *action);
        assert(p.inputs@ =~= old(p).inputs@ + actions_inputs(actions@.take(i + 1)));
        i += 1;
    }
    assert(actions@.take(actions@.len() as int) == actions@);
}

/// Crafting one item: press synthesize (four times, as timing varies), wait
/// for the dialog, run the macro, and get back to the crafting log, through
/// the extra dialogs of a collectable.
pub open spec fn one_craft_inputs(task: Task) -> Seq<Input> {
    repeat(key(Key::Confirm), 4) + seq![Input::Wait(2000)] + actions_inputs(task.actions@) + (if task.collectable {
        seq![Input::Wait(1000)] + key(Key::Confirm) + seq![Input::Wait(1000)] + key(Key::Confirm)
            + seq![Input::Wait(4000)]
    } else {
        seq![Input::Wait(4000)]
    })
}

/// Crafts the task's item `count` times.
pub fn execute_task(p: &mut Plan, task: &Task)
    ensures
        final(p).inputs@ == old(p).inputs@ + repeat(one_craft_inputs(*task), task.count as nat),
{
    let mut n: u64 = 0;
    while n < task.count
        invariant
            n <= task.count,
            p.inputs@ == old(p).inputs@ + repeat(one_craft_inputs(*task), n as nat),
        decreases task.count - n,
    {
        let ghost before = p.inputs@;
        send_key_times(p, Key::Confirm, 4);
        wait_secs(p, 2);
        execute_actions(p, &task.actions);
        if task.collectable {
            wait_secs(p, 1);
            confirm(p);
        }
        if task.collectable {
            wait_secs(p, 1);
            confirm(p);
            wait_secs(p, 4);
        } else {
            wait_secs(p, 4);
        }
        assert(p.inputs@ =~= before + one_craft_inputs(*task));
        assert(p.inputs@ =~= old(p).inputs@ + repeat(one_craft_inputs(*task), (n + 1) as nat));
        n += 1;
    }
}

/// Crafting a task: clear the windows (switching collectable synthesis on
/// where the task wants it), open the crafting log, select the recipe, craft
/// every item, and clear the windows again (switching it back off).
pub open spec fn task_inputs(task: Task) -> Seq<Input> {
    let toggle = if task.collectable { toggle_inputs() } else { Seq::empty() };
    clear_inputs() + toggle + key(Key::CraftingLog) + seq![Input::Wait(1000)] + select_inputs(
        task.item.name@,
        task.index,
    ) + repeat(one_craft_inputs(task), task.count as nat) + clear_inputs() + toggle
}

/// Crafting every task in order.
pub open spec fn tasks_inputs(tasks: Seq<Task>) -> Seq<Input>
    decreases tasks.len(),
{
    if tasks.len() == 0 {
        Seq::empty()
    } else {
        tasks_inputs(tasks.drop_last()) + task_inputs(tasks.last())
    }
}

/// Crafts every task in order.
pub fn craft_items(p: &mut Plan, tasks: &[Task])
    ensures
        final(p).inputs@ == old(p).inputs@ + tasks_inputs(tasks@),
{
    let mut i: usize = 0;
    while i < tasks.len()
        invariant
            i <= tasks@.len(),
            p.inputs@ == old(p).inputs@ + tasks_inputs(tasks@.take(i as int)),
        decreases tasks@.len() - i,
    {
        let task = &tasks[i];
        let ghost before = p.inputs@;
        clear_windows(p);
        if task.collectable {
            toggle_collectable(p);
        }
        open_craft_window(p);
        wait_secs(p, 1);
        select_recipe(p, task);
        execute_task(p, task);
        clear_windows(p);
        if task.collectable {
            toggle_collectable(p);
        }
        assert(p.inputs@ =~= before + task_inputs(*task));
        assert(tasks@.take(i + 1).drop_last() == tasks@.take(i as int));
        assert(tasks@.take(i + 1).last() == *task);
        assert(p.inputs@ =~= old(p).inputs@ + tasks_inputs(tasks@.take(i + 1)));
        i += 1;
    }
    assert(tasks@.take(tasks@.len() as int) == tasks@);
}

} // verus!
