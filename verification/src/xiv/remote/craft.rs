//! The crafting state the game keeps in memory: what the current step is,
//! which action was used, progress, quality, durability and condition.
use vstd::prelude::*;
use crate::process::UnknownField;
use crate::text::{digits_in_base, push_digits, push_str};

verus! {

/// The offset of the crafting state in the game's module.
pub const OFFSET: u64 = 0x1DD6F50;

/// The condition of the material during a craft, by the code the game
/// stores (the codes the game knows are the associated constants).
#[derive(Copy, Clone, Debug, PartialEq, Eq, Structural)]
pub struct Condition(pub u32);

impl Condition {
    pub const UNINITIALIZED: u32 = 0x0;
    pub const NORMAL: u32 = 0x1;
    pub const GOOD: u32 = 0x2;
    pub const EXCELLENT: u32 = 0x3;
    pub const POOR: u32 = 0x4;
    pub const CENTERED: u32 = 0x5;
    pub const STURDY: u32 = 0x6;
    pub const PLIANT: u32 = 0x7;
}

/// The state of a craft, by the code the game stores (the codes the game
/// knows are the associated constants).
#[derive(Copy, Clone, Debug, PartialEq, Eq, Structural)]
pub struct State(pub u32);

impl State {
    pub const UNINITIALIZED: u32 = 0x0;
    pub const READY: u32 = 0x3;
    pub const SUCCESS: u32 = 0x4;
    pub const CANCELED: u32 = 0x6;
    pub const FAILED: u32 = 0x8;
    pub const ACTION_USED: u32 = 0x9;
    pub const BUFF_USED: u32 = 0xa;
}

/// The last action used in a craft, by the id the game stores (each job has
/// its own id for the same action).
#[derive(Copy, Clone, Debug, PartialEq, Eq, Structural)]
pub struct Action(pub u32);

/// The name of a condition code, where it is known.
pub open spec fn condition_name(code: u32) -> Option<&'static str> {
    match code {
            0x0 => Some("Uninitialized"),
            0x1 => Some("Normal"),
            0x2 => Some("Good"),
            0x3 => Some("Excellent"),
            0x4 => Some("Poor"),
            0x5 => Some("Centered"),
            0x6 => Some("Sturdy"),
            0x7 => Some("Pliant"),
            _ => None,
    }
}

/// The name of a state code, where it is known.
pub open spec fn state_name(code: u32) -> Option<&'static str> {
    match code {
            0x0 => Some("Uninitialized"),
            0x3 => Some("Ready"),
            0x4 => Some("Success"),
            0x6 => Some("Canceled"),
            0x8 => Some("Failed"),
            0x9 => Some("Action used"),
            0xa => Some("Buff used"),
            _ => None,
    }
}

/// The name of an action id, where it is known.
pub open spec fn action_name(id: u32) -> Option<&'static str> {
    match id {
            100001 | 100015 | 100030 | 100045 | 100060 | 100075 | 100090 | 100105 => Some("Basic Synthesis"),
            100002 | 100016 | 100031 | 100046 | 100061 | 100076 | 100091 | 100106 => Some("Basic Touch"),
            100331 | 100332 | 100333 | 100334 | 100335 | 100336 | 100337 | 100338 => Some("Brand of the Elements"),
            100339 | 100340 | 100341 | 100342 | 100343 | 100344 | 100345 | 100346 => Some("Byregot's Blessing"),
            100395 | 100396 | 100397 | 100398 | 100399 | 100400 | 100401 | 100402 => Some("Careful Observation"),
            100203 | 100204 | 100205 | 100206 | 100207 | 100208 | 100209 | 100210 => Some("Careful Synthesis"),
            4560 | 4561 | 4562 | 4563 | 4564 | 4565 | 4566 | 4567 => Some("Collectable Synthesis"),
            100323 | 100324 | 100325 | 100326 | 100327 | 100328 | 100329 | 100330 => Some("Delicate Synthesis"),
            19012 | 19013 | 19014 | 19015 | 19016 | 19017 | 19018 | 19019 => Some("Final Appraisal"),
            100235 | 100236 | 100237 | 100238 | 100239 | 100240 | 100241 | 100242 => Some("Focused Synthesis"),
            100243 | 100244 | 100245 | 100246 | 100247 | 100248 | 100249 | 100250 => Some("Focused Touch"),
            260 | 261 | 262 | 263 | 264 | 265 | 266 | 267 => Some("Great Strides"),
            100403 | 100404 | 100405 | 100406 | 100407 | 100408 | 100409 | 100410 => Some("Groundwork"),
            100355 | 100356 | 100357 | 100358 | 100359 | 100360 | 100361 | 100362 => Some("Hasty Touch"),
            252 | 253 | 254 | 255 | 256 | 257 | 258 | 259 => Some("Inner Quiet"),
            19004 | 19005 | 19006 | 19007 | 19008 | 19009 | 19010 | 19011 => Some("Innovation"),
            100315 | 100316 | 100317 | 100318 | 100319 | 100320 | 100321 | 100322 => Some("Intensive Synthesis"),
            4574 | 4575 | 4576 | 4577 | 4578 | 4579 | 4580 | 4581 => Some("Manipulation"),
            100003 | 100017 | 100032 | 100047 | 100062 | 100077 | 100092 | 100107 => Some("Master's Mend"),
            100379 | 100380 | 100381 | 100382 | 100383 | 100384 | 100385 | 100386 => Some("Muscle Memory"),
            4615 | 4616 | 4617 | 4618 | 4619 | 4620 | 4621 | 4622 => Some("Name of the Elements"),
            100010 | 100023 | 100040 | 100053 | 100070 | 100082 | 100099 | 100113 => Some("Observe"),
            100219 | 100220 | 100221 | 100222 | 100223 | 100224 | 100225 | 100226 => Some("Patient Touch"),
            100128 | 100129 | 100130 | 100131 | 100132 | 100133 | 100134 | 100135 => Some("Precise Touch"),
            100299 | 100300 | 100301 | 100302 | 100303 | 100304 | 100305 | 100306 => Some("Preparatory Touch"),
            100227 | 100228 | 100229 | 100230 | 100231 | 100232 | 100233 | 100234 => Some("Prudent Touch"),
            100363 | 100364 | 100365 | 100366 | 100367 | 100368 | 100369 | 100370 => Some("Rapid Synthesis"),
            100387 | 100388 | 100389 | 100390 | 100391 | 100392 | 100393 | 100394 => Some("Reflect"),
            100004 | 100018 | 100034 | 100048 | 100064 | 100078 | 100093 | 100109 => Some("Standard Touch"),
            100283 | 100284 | 100285 | 100286 | 100287 | 100288 | 100289 | 100290 => Some("Trained Eye"),
            100371 | 100372 | 100373 | 100374 | 100375 | 100376 | 100377 | 100378 => Some("Tricks of the Trade"),
            19297 | 19298 | 19299 | 19300 | 19301 | 19302 | 19303 | 19304 => Some("Veneration"),
            4631 | 4632 | 4633 | 4634 | 4635 | 4636 | 4637 | 4638 => Some("Waste Not"),
            4639 | 4640 | 4641 | 4642 | 4643 | 4644 | 19002 | 19003 => Some("Waste Not II"),
            _ => None,
    }
}

/// The text shown for a code: its name where it is known, else `{prefix}(0x{code})`
/// with the code in lowercase hexadecimal.
pub open spec fn shown(name: Option<&'static str>, prefix: Seq<char>, code: u32) -> Seq<char> {
    match name {
        Some(n) => n@,
        None => prefix + "(0x"@ + digits_in_base(code as nat, 16) + ")"@,
    }
}

/// The text for a known name, or the unknown-code form.
fn show(name: Option<&'static str>, prefix: &str, code: u32) -> (s: String)
    ensures
        s@ == shown(name, prefix@, code),
{
    match name {
        Some(n) => n.to_string(),
        None => {
            let mut s = prefix.to_string();
            push_str(&mut s, "(0x");
            push_digits(&mut s, code as u64, 16);
            push_str(&mut s, ")");
            s
        },
    }
}

impl Condition {
    /// The name of the condition, where it is known.
    pub fn known_name(&self) -> (r: Option<&'static str>)
        ensures
            r == condition_name(self.0),
    {
        match self.0 {
            0x0 => Some("Uninitialized"),
            0x1 => Some("Normal"),
            0x2 => Some("Good"),
            0x3 => Some("Excellent"),
            0x4 => Some("Poor"),
            0x5 => Some("Centered"),
            0x6 => Some("Sturdy"),
            0x7 => Some("Pliant"),
            _ => None,
        }
    }

    /// The text shown for the condition.
    pub fn to_display_string(&self) -> (s: String)
        ensures
            s@ == shown(condition_name(self.0), "UnknownCondition"@, self.0),
    {
        show(self.known_name(), "UnknownCondition", self.0)
    }
}

impl Default for Condition {
    fn default() -> (c: Self)
        ensures
            c == Condition(Condition::UNINITIALIZED),
    {
        Condition(Condition::UNINITIALIZED)
    }
}

impl State {
    /// The name of the state, where it is known.
    pub fn known_name(&self) -> (r: Option<&'static str>)
        ensures
            r == state_name(self.0),
    {
        match self.0 {
            0x0 => Some("Uninitialized"),
            0x3 => Some("Ready"),
            0x4 => Some("Success"),
            0x6 => Some("Canceled"),
            0x8 => Some("Failed"),
            0x9 => Some("Action used"),
            0xa => Some("Buff used"),
            _ => None,
        }
    }

    /// The text shown for the state.
    pub fn to_display_string(&self) -> (s: String)
        ensures
            s@ == shown(state_name(self.0), "UnknownState"@, self.0),
    {
        show(self.known_name(), "UnknownState", self.0)
    }
}

impl Default for State {
    fn default() -> (s: Self)
        ensures
            s == State(State::UNINITIALIZED),
    {
        State(State::UNINITIALIZED)
    }
}

impl Action {
    /// The name of the action, where it is known.
    pub fn known_name(&self) -> (r: Option<&'static str>)
        ensures
            r == action_name(self.0),
    {
        match self.0 {
            100001 | 100015 | 100030 | 100045 | 100060 | 100075 | 100090 | 100105 => Some("Basic Synthesis"),
            100002 | 100016 | 100031 | 100046 | 100061 | 100076 | 100091 | 100106 => Some("Basic Touch"),
            100331 | 100332 | 100333 | 100334 | 100335 | 100336 | 100337 | 100338 => Some("Brand of the Elements"),
            100339 | 100340 | 100341 | 100342 | 100343 | 100344 | 100345 | 100346 => Some("Byregot's Blessing"),
            100395 | 100396 | 100397 | 100398 | 100399 | 100400 | 100401 | 100402 => Some("Careful Observation"),
            100203 | 100204 | 100205 | 100206 | 100207 | 100208 | 100209 | 100210 => Some("Careful Synthesis"),
            4560 | 4561 | 4562 | 4563 | 4564 | 4565 | 4566 | 4567 => Some("Collectable Synthesis"),
            100323 | 100324 | 100325 | 100326 | 100327 | 100328 | 100329 | 100330 => Some("Delicate Synthesis"),
            19012 | 19013 | 19014 | 19015 | 19016 | 19017 | 19018 | 19019 => Some("Final Appraisal"),
            100235 | 100236 | 100237 | 100238 | 100239 | 100240 | 100241 | 100242 => Some("Focused Synthesis"),
            100243 | 100244 | 100245 | 100246 | 100247 | 100248 | 100249 | 100250 => Some("Focused Touch"),
            260 | 261 | 262 | 263 | 264 | 265 | 266 | 267 => Some("Great Strides"),
            100403 | 100404 | 100405 | 100406 | 100407 | 100408 | 100409 | 100410 => Some("Groundwork"),
            100355 | 100356 | 100357 | 100358 | 100359 | 100360 | 100361 | 100362 => Some("Hasty Touch"),
            252 | 253 | 254 | 255 | 256 | 257 | 258 | 259 => Some("Inner Quiet"),
            19004 | 19005 | 19006 | 19007 | 19008 | 19009 | 19010 | 19011 => Some("Innovation"),
            100315 | 100316 | 100317 | 100318 | 100319 | 100320 | 100321 | 100322 => Some("Intensive Synthesis"),
            4574 | 4575 | 4576 | 4577 | 4578 | 4579 | 4580 | 4581 => Some("Manipulation"),
            100003 | 100017 | 100032 | 100047 | 100062 | 100077 | 100092 | 100107 => Some("Master's Mend"),
            100379 | 100380 | 100381 | 100382 | 100383 | 100384 | 100385 | 100386 => Some("Muscle Memory"),
            4615 | 4616 | 4617 | 4618 | 4619 | 4620 | 4621 | 4622 => Some("Name of the Elements"),
            100010 | 100023 | 100040 | 100053 | 100070 | 100082 | 100099 | 100113 => Some("Observe"),
            100219 | 100220 | 100221 | 100222 | 100223 | 100224 | 100225 | 100226 => Some("Patient Touch"),
            100128 | 100129 | 100130 | 100131 | 100132 | 100133 | 100134 | 100135 => Some("Precise Touch"),
            100299 | 100300 | 100301 | 100302 | 100303 | 100304 | 100305 | 100306 => Some("Preparatory Touch"),
            100227 | 100228 | 100229 | 100230 | 100231 | 100232 | 100233 | 100234 => Some("Prudent Touch"),
            100363 | 100364 | 100365 | 100366 | 100367 | 100368 | 100369 | 100370 => Some("Rapid Synthesis"),
            100387 | 100388 | 100389 | 100390 | 100391 | 100392 | 100393 | 100394 => Some("Reflect"),
            100004 | 100018 | 100034 | 100048 | 100064 | 100078 | 100093 | 100109 => Some("Standard Touch"),
            100283 | 100284 | 100285 | 100286 | 100287 | 100288 | 100289 | 100290 => Some("Trained Eye"),
            100371 | 100372 | 100373 | 100374 | 100375 | 100376 | 100377 | 100378 => Some("Tricks of the Trade"),
            19297 | 19298 | 19299 | 19300 | 19301 | 19302 | 19303 | 19304 => Some("Veneration"),
            4631 | 4632 | 4633 | 4634 | 4635 | 4636 | 4637 | 4638 => Some("Waste Not"),
            4639 | 4640 | 4641 | 4642 | 4643 | 4644 | 19002 | 19003 => Some("Waste Not II"),
            _ => None,
        }
    }

    /// The text shown for the action.
    pub fn to_display_string(&self) -> (s: String)
        ensures
            s@ == shown(action_name(self.0), "UnknownAction"@, self.0),
    {
        show(self.known_name(), "UnknownAction", self.0)
    }
}

impl Default for Action {
    fn default() -> (a: Action)
        ensures
            a == Action(0),
    {
        Action(0)
    }
}

/// The crafting state as the game lays it out.
#[derive(Copy, Clone, Debug, PartialEq, Eq)]
pub struct CraftingStruct {
    pub state: State,
    pub __unknown_1: UnknownField<12>,
    pub action: Action,
    pub __unknown_2: UnknownField<4>,
    pub step: u32,
    pub progress_total: u32,
    pub progress: u32,
    pub quality_total: u32,
    pub quality: u32,
    pub hq: u32,
    pub durability: u32,
    pub last_durability_hit: i32,
    pub condition: Condition,
    pub __unknown_3: UnknownField<4>,
}

impl Default for CraftingStruct {
    fn default() -> (c: Self)
        ensures
            c.state == State(State::UNINITIALIZED),
            c.action == Action(0),
            c.condition == Condition(Condition::UNINITIALIZED),
            c.step == 0 && c.progress_total == 0 && c.progress == 0 && c.quality_total == 0,
            c.quality == 0 && c.hq == 0 && c.durability == 0 && c.last_durability_hit == 0,
    {
        CraftingStruct {
            state: State::default(),
            __unknown_1: UnknownField::default(),
            action: Action::default(),
            __unknown_2: UnknownField::default(),
            step: 0,
            progress_total: 0,
            progress: 0,
            quality_total: 0,
            quality: 0,
            hq: 0,
            durability: 0,
            last_durability_hit: 0,
            condition: Condition::default(),
            __unknown_3: UnknownField::default(),
        }
    }
}

} // verus!
