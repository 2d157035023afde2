//! All input sent to the game, as a plan of key presses, typed characters
//! and pauses that the platform layer carries out in order.
use vstd::prelude::*;
use crate::input::{Input, Key, repeat};

verus! {

/// Input planned for the game window.
#[derive(Clone, Debug)]
pub struct UiPlan {
    /// Whether menus are navigated slowly, for laggy systems.
    pub use_slow_navigation: bool,
    /// The input so far, in order.
    pub inputs: Vec<Input>,
}

/// The pause after a typed character, in milliseconds.
pub const CHAR_DELAY_MS: u64 = 50;

/// The pause after a menu key, in milliseconds.
pub const UI_DELAY_MS: u64 = 50;

/// The pause after a menu key with slow navigation, in milliseconds.
pub const UI_DELAY_SLOW_MS: u64 = 150;

/// Pressing and releasing `k`, then the menu pause.
pub open spec fn key_press(k: Key, slow: bool) -> Seq<Input> {
    seq![Input::KeyDown(k), Input::KeyUp(k), Input::Wait(if slow { UI_DELAY_SLOW_MS } else { UI_DELAY_MS })]
}

/// Typing `c`, then the character pause.
pub open spec fn char_press(c: char) -> Seq<Input> {
    seq![Input::Char(c), Input::Wait(CHAR_DELAY_MS)]
}

/// Typing the text `s`.
pub open spec fn text_inputs(s: Seq<char>) -> Seq<Input>
    decreases s.len(),
{
    if s.len() == 0 {
        Seq::empty()
    } else {
        text_inputs(s.drop_last()) + char_press(s.last())
    }
}

/// Whether `new` is `old` with `s` planned after it.
pub open spec fn appended(old: UiPlan, new: UiPlan, s: Seq<Input>) -> bool {
    &&& new.use_slow_navigation == old.use_slow_navigation
    &&& new.inputs@ == old.inputs@ + s
}

impl UiPlan {
    /// An empty plan.
    pub fn new(use_slow_navigation: bool) -> (p: UiPlan)
        ensures
            p.use_slow_navigation == use_slow_navigation,
            p.inputs@ == Seq::<Input>::empty(),
    {
        UiPlan { use_slow_navigation, inputs: Vec::new() }
    }

    /// Plans `i`.
    pub fn push(&mut self, i: Input)
        ensures
            appended(*old(self), *final(self), seq![i]),
    {
        self.inputs.push(i);
        assert(self.inputs@ =~= old(self).inputs@ + seq![i]);
    }
}

/// Pauses for `ms` milliseconds.
pub fn wait(p: &mut UiPlan, ms: u64)
    ensures
        appended(*old(p), *final(p), seq![Input::Wait(ms)]),
{
    p.push(Input::Wait(ms));
}

/// Presses and releases `k` (a key given by its code where it is
/// `Key::Code`), then pauses as menu navigation needs.
pub fn send_key(p: &mut UiPlan, k: Key)
    ensures
        appended(*old(p), *final(p), key_press(k, old(p).use_slow_navigation)),
{
    p.push(Input::KeyDown(k));
    p.push(Input::KeyUp(k));
    let delay = if p.use_slow_navigation { UI_DELAY_SLOW_MS } else { UI_DELAY_MS };
    p.push(Input::Wait(delay));
    assert(p.inputs@ =~= old(p).inputs@ + key_press(k, old(p).use_slow_navigation));
}

/// Types `c`.
pub fn send_char(p: &mut UiPlan, c: char)
    ensures
        appended(*old(p), *final(p), char_press(c)),
{
    p.push(Input::Char(c));
    p.push(Input::Wait(CHAR_DELAY_MS));
    assert(p.inputs@ =~= old(p).inputs@ + char_press(c));
}

/// Types the text `s`.
pub fn send_string(p: &mut UiPlan, s: &str)
    ensures
        appended(*old(p), *final(p), text_inputs(s@)),
{
    let ghost start = p.inputs@;
    for c in it: s.chars()
        invariant
            it.seq() == s@,
            p.use_slow_navigation == old(p).use_slow_navigation,
            start == old(p).inputs@,
            p.inputs@ == start + text_inputs(it.seq().take(it.index() as int)),
    {
        let ghost k = it.index();
        let ghost before = p.inputs@;
        send_char(p, c);
        assert(it.seq().take(k + 1).drop_last() == it.seq().take(k as int));
        assert(it.seq().take(k + 1).last() == c);
        assert(p.inputs@ =~= start + text_inputs(it.seq().take(k + 1)));
    }
    assert(s@.take(s@.len() as int) == s@);
}

/// Presses `k` `n` times.
pub fn send_key_times(p: &mut UiPlan, k: Key, n: u64)
    ensures
        appended(*old(p), *final(p), repeat(key_press(k, old(p).use_slow_navigation), n as nat)),
{
    let ghost start = p.inputs@;
    let ghost one = key_press(k, old(p).use_slow_navigation);
    let mut i: u64 = 0;
    while i < n
        invariant
            i <= n,
            p.use_slow_navigation == old(p).use_slow_navigation,
            start == old(p).inputs@,
            one == key_press(k, old(p).use_slow_navigation),
            p.inputs@ == start + repeat(one, i as nat),
        decreases n - i,
    {
        send_key(p, k);
        assert(p.inputs@ =~= start + repeat(one, (i + 1) as nat));
        i += 1;
    }
}

/// Moves the menu cursor down.
pub fn cursor_down(p: &mut UiPlan)
    ensures
        appended(*old(p), *final(p), key_press(Key::Down, old(p).use_slow_navigation)),
{
    send_key(p, Key::Down);
}

/// Moves the menu cursor up.
pub fn cursor_up(p: &mut UiPlan)
    ensures
        appended(*old(p), *final(p), key_press(Key::Up, old(p).use_slow_navigation)),
{
    send_key(p, Key::Up);
}

/// Moves the menu cursor left.
pub fn cursor_left(p: &mut UiPlan)
    ensures
        appended(*old(p), *final(p), key_press(Key::Left, old(p).use_slow_navigation)),
{
    send_key(p, Key::Left);
}

/// Moves the menu cursor right.
pub fn cursor_right(p: &mut UiPlan)
    ensures
        appended(*old(p), *final(p), key_press(Key::Right, old(p).use_slow_navigation)),
{
    send_key(p, Key::Right);
}

/// Moves to the previous menu section.
pub fn cursor_backward(p: &mut UiPlan)
    ensures
        appended(*old(p), *final(p), key_press(Key::Backward, old(p).use_slow_navigation)),
{
    send_key(p, Key::Backward);
}

/// Moves to the next menu section.
pub fn cursor_forward(p: &mut UiPlan)
    ensures
        appended(*old(p), *final(p), key_press(Key::Forward, old(p).use_slow_navigation)),
{
    send_key(p, Key::Forward);
}

/// Presses backspace.
pub fn press_backspace(p: &mut UiPlan)
    ensures
        appended(*old(p), *final(p), key_press(Key::Backspace, old(p).use_slow_navigation)),
{
    send_key(p, Key::Backspace);
}

/// Presses confirm.
pub fn press_confirm(p: &mut UiPlan)
    ensures
        appended(*old(p), *final(p), key_press(Key::Confirm, old(p).use_slow_navigation)),
{
    send_key(p, Key::Confirm);
}

/// Presses cancel.
pub fn press_cancel(p: &mut UiPlan)
    ensures
        appended(*old(p), *final(p), key_press(Key::Cancel, old(p).use_slow_navigation)),
{
    send_key(p, Key::Cancel);
}

/// Presses enter.
pub fn press_enter(p: &mut UiPlan)
    ensures
        appended(*old(p), *final(p), key_press(Key::Enter, old(p).use_slow_navigation)),
{
    send_key(p, Key::Enter);
}

/// Presses escape.
pub fn press_escape(p: &mut UiPlan)
    ensures
        appended(*old(p), *final(p), key_press(Key::Escape, old(p).use_slow_navigation)),
{
    send_key(p, Key::Escape);
}

/// Typing a chat command: enter, the text, enter.
pub open spec fn command_inputs(s: Seq<char>, slow: bool) -> Seq<Input> {
    key_press(Key::Enter, slow) + text_inputs(s) + key_press(Key::Enter, slow)
}

/// Targets the nearest NPC (`/tnpc`).
pub fn target_nearest_npc(p: &mut UiPlan)
    ensures
        appended(*old(p), *final(p), command_inputs("/tnpc"@, old(p).use_slow_navigation)),
{
    press_enter(p);
    send_string(p, "/tnpc");
    press_enter(p);
    assert(p.inputs@ =~= old(p).inputs@ + command_inputs("/tnpc"@, old(p).use_slow_navigation));
}

/// Types `s`, pauses half a second and presses enter.
pub fn send_action(p: &mut UiPlan, s: &str, _delay: Option<i64>)
    ensures
        appended(
            *old(p),
            *final(p),
            text_inputs(s@) + seq![Input::Wait(500)] + key_press(Key::Enter, old(p).use_slow_navigation),
        ),
{
    send_string(p, s);
    wait(p, 500);
    press_enter(p);
    assert(p.inputs@ =~= old(p).inputs@ + (text_inputs(s@) + seq![Input::Wait(500)] + key_press(Key::Enter, old(p).use_slow_navigation)));
}

/// The input that clears every dialog and the chat input: backspace 32
/// times and enter, twice; escape 4 times; cancel 13 times.
pub open spec fn clear_inputs(slow: bool) -> Seq<Input> {
    let back = repeat(key_press(Key::Backspace, slow), 32);
    let enter = key_press(Key::Enter, slow);
    back + enter + back + enter + repeat(key_press(Key::Escape, slow), 4) + repeat(
        key_press(Key::Cancel, slow),
        13,
    )
}

/// Clears all dialog windows and the chat input, so the game is in a state
/// to trust: whatever is typed is erased before it can be sent, and each
/// escape or cancel closes one window.
pub fn clear_window(p: &mut UiPlan)
    ensures
        appended(*old(p), *final(p), clear_inputs(old(p).use_slow_navigation)),
{
    let ghost slow = p.use_slow_navigation;
    send_key_times(p, Key::Backspace, 32);
    press_enter(p);
    send_key_times(p, Key::Backspace, 32);
    press_enter(p);
    send_key_times(p, Key::Escape, 4);
    send_key_times(p, Key::Cancel, 13);
    assert(p.inputs@ =~= old(p).inputs@ + clear_inputs(slow));
}

} // verus!
