//! Window messages for the game client, the earlier way: each key is
//! pressed and released followed by 250 ms, a text is typed at once and
//! followed by 100 ms. Finding the window and posting the messages is the
//! platform layer's part.
use vstd::prelude::*;
use crate::cli::macros::Action;
use crate::cli::ui::Plan;
use crate::input::{Input, Key, repeat};

verus! {

/// The handle of the game window where the platform has none.
#[derive(Copy, Clone, Debug)]
pub struct HWND {}

/// Pressing and releasing `k`, then 250 ms.
pub open spec fn key_message(k: Key) -> Seq<Input> {
    seq![Input::KeyDown(k), Input::KeyUp(k), Input::Wait(250)]
}

/// The characters of `s`, with no pause between them.
pub open spec fn chars_message(s: Seq<char>) -> Seq<Input>
    decreases s.len(),
{
    if s.len() == 0 {
        Seq::empty()
    } else {
        chars_message(s.drop_last()) + char_message(s.last())
    }
}

/// Typing `c`, with no pause.
pub open spec fn char_message(c: char) -> Seq<Input> {
    Seq::empty().push(Input::Char(c))
}

/// Typing `s`, then 100 ms.
pub open spec fn string_message(s: Seq<char>) -> Seq<Input> {
    chars_message(s) + seq![Input::Wait(100)]
}

fn send_key(p: &mut Plan, k: Key)
    ensures
        final(p).inputs@ == old(p).inputs@ + key_message(k),
{
    p.push(Input::KeyDown(k));
    p.push(Input::KeyUp(k));
    p.push(Input::Wait(250));
    assert(p.inputs@ =~= old(p).inputs@ + key_message(k));
}

fn type_char(p: &mut Plan, c: char)
    ensures
        final(p).inputs@ == old(p).inputs@ + char_message(c),
{
    p.push(Input::Char(c));
    assert(p.inputs@ =~= old(p).inputs@ + char_message(c));
}

fn send_string(p: &mut Plan, s: &str)
    ensures
        final(p).inputs@ == old(p).inputs@ + string_message(s@),
{
    for c in it: s.chars()
        invariant
            it.seq() == s@,
            p.inputs@ == old(p).inputs@ + chars_message(it.seq().take(it.index() as int)),
    {
        let ghost k = it.index();
        let ghost t = it.seq().take(k + 1);
        assert(t.drop_last() == it.seq().take(k as int));
        assert(t.last() == c);
        type_char(p, c);
        assert(p.inputs@ =~= old(p).inputs@ + chars_message(t));
    }
    assert(s@.take(s@.len() as int) == s@);
    p.push(Input::Wait(100));
    assert(p.inputs@ =~= old(p).inputs@ + string_message(s@));
}

/// Using `action` and waiting `wait` seconds: enter, `/ac "`, the name and
/// `"`, 250 ms, enter, then the wait.
pub open spec fn action_message(action: Seq<char>, wait: nat) -> Seq<Input> {
    key_message(Key::Enter) + string_message("/ac \""@) + string_message(action) + string_message("\""@)
        + seq![Input::Wait(250)] + key_message(Key::Enter) + seq![Input::Wait((wait * 1000) as u64)]
}

/// Uses `action` through the chat input, then waits `wait` seconds.
pub fn send_action(p: &mut Plan, action: &str, wait: u64)
    requires
        wait * 1000 <= u64::MAX,
    ensures
        final(p).inputs@ == old(p).inputs@ + action_message(action@, wait as nat),
{
    send_key(p, Key::Enter);
    send_string(p, "/ac \"");
    send_string(p, action);
    send_string(p, "\"");
    p.push(Input::Wait(250));
    send_key(p, Key::Enter);
    p.push(Input::Wait(wait * 1000));
    assert(p.inputs@ =~= old(p).inputs@ + action_message(action@, wait as nat));
}

/// Switches collectable synthesis on or off (the action, then two seconds).
pub fn toggle_collectable_status(p: &mut Plan)
    ensures
        final(p).inputs@ == old(p).inputs@ + action_message("collectable synthesis"@, 2),
{
    send_action(p, "collectable synthesis", 2);
}

/// Releases the keys that crafting holds (confirm, enter, the crafting
/// log), then 250 ms.
pub fn reset_action_keys(p: &mut Plan)
    ensures
        final(p).inputs@ == old(p).inputs@ + seq![
            Input::KeyUp(Key::Confirm),
            Input::KeyUp(Key::Enter),
            Input::KeyUp(Key::CraftingLog),
            Input::Wait(250),
        ],
{
    p.push(Input::KeyUp(Key::Confirm));
    p.push(Input::KeyUp(Key::Enter));
    p.push(Input::KeyUp(Key::CraftingLog));
    p.push(Input::Wait(250));
    assert(p.inputs@ =~= old(p).inputs@ + seq![
        Input::KeyUp(Key::Confirm),
        Input::KeyUp(Key::Enter),
        Input::KeyUp(Key::CraftingLog),
        Input::Wait(250),
    ]);
}

/// Whether every wait of `actions` can be counted in milliseconds.
pub open spec fn waits_fit(actions: Seq<Action>) -> bool {
    forall|i: int| 0 <= i < actions.len() ==> (#[trigger] actions[i]).wait * 1000 <= u64::MAX
}

/// Using each of `actions` in turn.
pub open spec fn actions_message(actions: Seq<Action>) -> Seq<Input>
    decreases actions.len(),
{
    if actions.len() == 0 {
        Seq::empty()
    } else {
        actions_message(actions.drop_last()) + action_message(actions.last().name@, actions.last().wait as nat)
    }
}

/// Crafting one item: confirm twice (for the first craft and those after),
/// two seconds for the crafting window, the actions, a second, the extra
/// confirms of a collectable, then two seconds.
pub open spec fn craft_message(actions: Seq<Action>, collectable: bool) -> Seq<Input> {
    key_message(Key::Confirm) + key_message(Key::Confirm) + seq![Input::Wait(2000)] + actions_message(actions)
        + seq![Input::Wait(1000)] + (if collectable {
        key_message(Key::Confirm) + key_message(Key::Confirm) + seq![Input::Wait(1000)]
    } else {
        Seq::empty()
    }) + seq![Input::Wait(2000)]
}

/// Crafts one item with `actions`.
pub fn craft_item(p: &mut Plan, actions: &Vec<Action>, collectable: bool)
    requires
        waits_fit(actions@),
    ensures
        final(p).inputs@ == old(p).inputs@ + craft_message(actions@, collectable),
{
    send_key(p, Key::Confirm);
    send_key(p, Key::Confirm);
    p.push(Input::Wait(2000));
    let ghost head = p.inputs@;
    let mut i: usize = 0;
    while i < actions.len()
        invariant
            i <= actions@.len(),
            waits_fit(actions@),
            p.inputs@ == head + actions_message(actions@.take(i as int)),
        decreases actions@.len() - i,
    {
        let entry = &actions[i];
        assert(actions@[i as int].wait * 1000 <= u64::MAX);
        send_action(p, entry.name.as_str(), entry.wait);
        assert(actions@.take(i + 1).drop_last() == actions@.take(i as int));
        assert(actions@.take(i + 1).last() == *entry);
        assert(p.inputs@ =~= head + actions_message(actions@.take(i + 1)));
        i += 1;
    }
    assert(actions@.take(actions@.len() as int) == actions@);
    p.push(Input::Wait(1000));
    if collectable {
        send_key(p, Key::Confirm);
        send_key(p, Key::Confirm);
        p.push(Input::Wait(1000));
    }
    p.push(Input::Wait(2000));
    assert(p.inputs@ =~= old(p).inputs@ + craft_message(actions@, collectable));
}

/// One escape, pressed and released, then 50 ms.
pub open spec fn escape_message() -> Seq<Input> {
    seq![Input::KeyDown(Key::Escape), Input::KeyUp(Key::Escape), Input::Wait(50)]
}

/// Clears the game's windows: escape five times, then 250 ms.
pub fn reset_ui(p: &mut Plan)
    ensures
        final(p).inputs@ == old(p).inputs@ + repeat(escape_message(), 5) + seq![Input::Wait(250)],
{
    let mut i: u32 = 0;
    while i < 5
        invariant
            i <= 5,
            p.inputs@ == old(p).inputs@ + repeat(escape_message(), i as nat),
        decreases 5 - i,
    {
        p.push(Input::KeyDown(Key::Escape));
        p.push(Input::KeyUp(Key::Escape));
        p.push(Input::Wait(50));
        assert(p.inputs@ =~= old(p).inputs@ + repeat(escape_message(), (i + 1) as nat));
        i += 1;
    }
    p.push(Input::Wait(250));
    assert(p.inputs@ =~= old(p).inputs@ + repeat(escape_message(), 5) + seq![Input::Wait(250)]);
}

/// Finding `item` in the crafting log: open it, back eight sections to the
/// search box, confirm, type the name, enter, half a second for the
/// results, down `offset` times (50 ms after each) and confirm.
pub open spec fn craft_window_message(item: Seq<char>, offset: nat) -> Seq<Input> {
    key_message(Key::CraftingLog) + repeat(key_message(Key::Backward), 8) + key_message(Key::Confirm)
        + string_message(item) + key_message(Key::Enter) + seq![Input::Wait(500)] + repeat(
        key_message(Key::Down) + seq![Input::Wait(50)],
        offset,
    ) + key_message(Key::Confirm)
}

/// Brings up the crafting log and selects `item`, the `offset`-th result.
pub fn bring_craft_window(p: &mut Plan, item: &str, offset: u32)
    ensures
        final(p).inputs@ == old(p).inputs@ + craft_window_message(item@, offset as nat),
{
    send_key(p, Key::CraftingLog);
    let ghost a = p.inputs@;
    let mut i: u32 = 0;
    while i < 8
        invariant
            i <= 8,
            p.inputs@ == a + repeat(key_message(Key::Backward), i as nat),
        decreases 8 - i,
    {
        send_key(p, Key::Backward);
        assert(p.inputs@ =~= a + repeat(key_message(Key::Backward), (i + 1) as nat));
        i += 1;
    }
    send_key(p, Key::Confirm);
    send_string(p, item);
    send_key(p, Key::Enter);
    p.push(Input::Wait(500));
    let ghost b = p.inputs@;
    let ghost down = key_message(Key::Down) + seq![Input::Wait(50)];
    let mut j: u32 = 0;
    while j < offset
        invariant
            j <= offset,
            down == key_message(Key::Down) + seq![Input::Wait(50)],
            p.inputs@ == b + repeat(down, j as nat),
        decreases offset - j,
    {
        send_key(p, Key::Down);
        p.push(Input::Wait(50));
        assert(p.inputs@ =~= b + repeat(down, (j + 1) as nat));
        j += 1;
    }
    send_key(p, Key::Confirm);
    assert(p.inputs@ =~= old(p).inputs@ + craft_window_message(item@, offset as nat));
}

} // verus!
