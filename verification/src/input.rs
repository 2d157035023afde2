//! Keyboard input for the game window, as plain values: the program decides
//! what to send, and the platform layer posts it to the window.
use vstd::prelude::*;

verus! {

/// A key the game is driven with. Which virtual-key code each stands for is
/// up to the platform layer.
#[derive(Copy, Clone, Debug, PartialEq, Eq, Structural)]
pub enum Key {
    Up,
    Down,
    Left,
    Right,
    Confirm,
    Forward,
    Backward,
    Cancel,
    Enter,
    Escape,
    Backspace,
    /// The key that opens the crafting log.
    CraftingLog,
    /// A key given by its virtual-key code.
    Code(i32),
}

/// One step of input.
#[derive(Copy, Clone, Debug, PartialEq, Eq, Structural)]
pub enum Input {
    KeyDown(Key),
    KeyUp(Key),
    /// A typed character.
    Char(char),
    /// A pause, in milliseconds.
    Wait(u64),
}

/// `s` repeated `n` times.
pub open spec fn repeat(s: Seq<Input>, n: nat) -> Seq<Input>
    decreases n,
{
    if n == 0 {
        Seq::empty()
    } else {
        repeat(s, (n - 1) as nat) + s
    }
}

} // verus!
