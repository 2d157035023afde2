//! Input to the game window for the command-line tool, planned as plain
//! values: each key is pressed and released followed by a pause of 150 ms,
//! each character typed followed by 20 ms.
use vstd::prelude::*;
use crate::input::{Input, Key, repeat};

verus! {

/// Input planned for the game window.
#[derive(Clone, Debug)]
pub struct Plan {
    pub inputs: Vec<Input>,
}

/// Pressing and releasing `k`, then 150 ms.
pub open spec fn key(k: Key) -> Seq<Input> {
    seq![Input::KeyDown(k), Input::KeyUp(k), Input::Wait(150)]
}

/// Typing `c`, then 20 ms.
pub open spec fn char_input(c: char) -> Seq<Input> {
    seq![Input::Char(c), Input::Wait(20)]
}

/// Typing the text `s`.
pub open spec fn text(s: Seq<char>) -> Seq<Input>
    decreases s.len(),
{
    if s.len() == 0 {
        Seq::empty()
    } else {
        text(s.drop_last()) + char_input(s.last())
    }
}

impl Plan {
    /// An empty plan.
    pub fn new() -> (p: Plan)
        ensures
            p.inputs@ == Seq::<Input>::empty(),
    {
        Plan { inputs: Vec::new() }
    }

    /// Plans `i`.
    pub fn push(&mut self, i: Input)
        ensures
            final(self).inputs@ == old(self).inputs@.push(i),
    {
        self.inputs.push(i);
    }
}

/// Pauses `ms` milliseconds.
pub fn wait_ms(p: &mut Plan, ms: u64)
    ensures
        final(p).inputs@ == old(p).inputs@ + seq![Input::Wait(ms)],
{
    p.push(Input::Wait(ms));
    assert(p.inputs@ =~= old(p).inputs@ + seq![Input::Wait(ms)]);
}

/// Pauses `s` seconds.
pub fn wait_secs(p: &mut Plan, s: u64)
    requires
        s <= u64::MAX / 1000,
    ensures
        final(p).inputs@ == old(p).inputs@ + seq![Input::Wait((s * 1000) as u64)],
{
    wait_ms(p, s * 1000);
}

/// Presses and releases `k`.
pub fn send_key(p: &mut Plan, k: Key)
    ensures
        final(p).inputs@ == old(p).inputs@ + key(k),
{
    p.push(Input::KeyDown(k));
    p.push(Input::KeyUp(k));
    p.push(Input::Wait(150));
    assert(p.inputs@ =~= old(p).inputs@ + key(k));
}

/// Presses `k` `n` times.
pub fn send_key_times(p: &mut Plan, k: Key, n: u64)
    ensures
        final(p).inputs@ == old(p).inputs@ + repeat(key(k), n as nat),
{
    let mut i: u64 = 0;
    while i < n
        invariant
            i <= n,
            p.inputs@ == old(p).inputs@ + repeat(key(k), i as nat),
        decreases n - i,
    {
        send_key(p, k);
        assert(p.inputs@ =~= old(p).inputs@ + repeat(key(k), (i + 1) as nat));
        i += 1;
    }
}

/// Types `c`.
pub fn send_char(p: &mut Plan, c: char)
    ensures
        final(p).inputs@ == old(p).inputs@ + char_input(c),
{
    p.push(Input::Char(c));
    p.push(Input::Wait(20));
    assert(p.inputs@ =~= old(p).inputs@ + char_input(c));
}

/// Moves the cursor down.
pub fn cursor_down(p: &mut Plan)
    ensures
        final(p).inputs@ == old(p).inputs@ + key(Key::Down),
{
    send_key(p, Key::Down);
}

/// Moves to the previous menu section.
pub fn move_backward(p: &mut Plan)
    ensures
        final(p).inputs@ == old(p).inputs@ + key(Key::Backward),
{
    send_key(p, Key::Backward);
}

/// Presses confirm.
pub fn confirm(p: &mut Plan)
    ensures
        final(p).inputs@ == old(p).inputs@ + key(Key::Confirm),
{
    send_key(p, Key::Confirm);
}

/// Presses cancel.
pub fn cancel(p: &mut Plan)
    ensures
        final(p).inputs@ == old(p).inputs@ + key(Key::Cancel),
{
    send_key(p, Key::Cancel);
}

/// Presses enter.
pub fn enter(p: &mut Plan)
    ensures
        final(p).inputs@ == old(p).inputs@ + key(Key::Enter),
{
    send_key(p, Key::Enter);
}

/// Presses escape.
pub fn escape(p: &mut Plan)
    ensures
        final(p).inputs@ == old(p).inputs@ + key(Key::Escape),
{
    send_key(p, Key::Escape);
}

/// Opens the crafting log.
pub fn open_craft_window(p: &mut Plan)
    ensures
        final(p).inputs@ == old(p).inputs@ + key(Key::CraftingLog),
{
    send_key(p, Key::CraftingLog);
}

} // verus!
