//! The crafting actions a macro may name.
use vstd::prelude::*;
use crate::text::chars_eq_str;

verus! {

/// A crafting action: its name as the game spells it and how long to wait
/// after using it.
#[derive(Clone, Copy, Debug, PartialEq)]
pub struct Action {
    pub name: &'static str,
    pub wait_ms: u64,
}

/// The action known under a lowercase `key`, if there is one: every crafting
/// skill of the game but Collectable Synthesis.
pub open spec fn action_entry(key: Seq<char>) -> Option<Action> {
    if key == "advanced touch"@ {
        Some(Action { name: "Advanced Touch", wait_ms: 2500 })
    } else if key == "basic synthesis"@ {
        Some(Action { name: "Basic Synthesis", wait_ms: 2500 })
    } else if key == "basic touch"@ {
        Some(Action { name: "Basic Touch", wait_ms: 2500 })
    } else if key == "byregot's blessing"@ {
        Some(Action { name: "Byregot's Blessing", wait_ms: 2500 })
    } else if key == "careful observation"@ {
        Some(Action { name: "Careful Observation", wait_ms: 2500 })
    } else if key == "careful synthesis"@ {
        Some(Action { name: "Careful Synthesis", wait_ms: 2500 })
    } else if key == "delicate synthesis"@ {
        Some(Action { name: "Delicate Synthesis", wait_ms: 2500 })
    } else if key == "final appraisal"@ {
        Some(Action { name: "Final Appraisal", wait_ms: 1500 })
    } else if key == "focused synthesis"@ {
        Some(Action { name: "Focused Synthesis", wait_ms: 2500 })
    } else if key == "focused touch"@ {
        Some(Action { name: "Focused Touch", wait_ms: 2500 })
    } else if key == "great strides"@ {
        Some(Action { name: "Great Strides", wait_ms: 1500 })
    } else if key == "groundwork"@ {
        Some(Action { name: "Groundwork", wait_ms: 2500 })
    } else if key == "hasty touch"@ {
        Some(Action { name: "Hasty Touch", wait_ms: 2500 })
    } else if key == "heart and soul"@ {
        Some(Action { name: "Heart and Soul", wait_ms: 2500 })
    } else if key == "inner quiet"@ {
        // Inner Quiet stands in macros like the other actions; its wait of
        // 1500 ms is chosen like that of the other buffs, with nothing that
        // fixes it further.
        Some(Action { name: "Inner Quiet", wait_ms: 1500 })
    } else if key == "innovation"@ {
        Some(Action { name: "Innovation", wait_ms: 1500 })
    } else if key == "intensive synthesis"@ {
        Some(Action { name: "Intensive Synthesis", wait_ms: 2500 })
    } else if key == "manipulation"@ {
        Some(Action { name: "Manipulation", wait_ms: 1500 })
    } else if key == "master's mend"@ {
        Some(Action { name: "Master's Mend", wait_ms: 2500 })
    } else if key == "muscle memory"@ {
        Some(Action { name: "Muscle Memory", wait_ms: 2500 })
    } else if key == "observe"@ {
        Some(Action { name: "Observe", wait_ms: 2500 })
    } else if key == "precise touch"@ {
        Some(Action { name: "Precise Touch", wait_ms: 2500 })
    } else if key == "preparatory touch"@ {
        Some(Action { name: "Preparatory Touch", wait_ms: 2500 })
    } else if key == "prudent synthesis"@ {
        Some(Action { name: "Prudent Synthesis", wait_ms: 2500 })
    } else if key == "prudent touch"@ {
        Some(Action { name: "Prudent Touch", wait_ms: 2500 })
    } else if key == "rapid synthesis"@ {
        Some(Action { name: "Rapid Synthesis", wait_ms: 2500 })
    } else if key == "reflect"@ {
        Some(Action { name: "Reflect", wait_ms: 2500 })
    } else if key == "standard touch"@ {
        Some(Action { name: "Standard Touch", wait_ms: 2500 })
    } else if key == "trained eye"@ {
        Some(Action { name: "Trained Eye", wait_ms: 2500 })
    } else if key == "trained finesse"@ {
        Some(Action { name: "Trained Finesse", wait_ms: 2500 })
    } else if key == "tricks of the trade"@ {
        Some(Action { name: "Tricks of the Trade", wait_ms: 2500 })
    } else if key == "veneration"@ {
        Some(Action { name: "Veneration", wait_ms: 1500 })
    } else if key == "waste not"@ {
        Some(Action { name: "Waste Not", wait_ms: 1500 })
    } else if key == "waste not ii"@ {
        Some(Action { name: "Waste Not II", wait_ms: 1500 })
    } else {
        None
    }
}

/// Looks up the action known under a lowercase `key`.
pub fn lookup_action(key: &Vec<char>) -> (r: Option<Action>)
    ensures
        r == action_entry(key@),
{
    if chars_eq_str(key, "advanced touch") {
        Some(Action { name: "Advanced Touch", wait_ms: 2500 })
    } else if chars_eq_str(key, "basic synthesis") {
        Some(Action { name: "Basic Synthesis", wait_ms: 2500 })
    } else if chars_eq_str(key, "basic touch") {
        Some(Action { name: "Basic Touch", wait_ms: 2500 })
    } else if chars_eq_str(key, "byregot's blessing") {
        Some(Action { name: "Byregot's Blessing", wait_ms: 2500 })
    } else if chars_eq_str(key, "careful observation") {
        Some(Action { name: "Careful Observation", wait_ms: 2500 })
    } else if chars_eq_str(key, "careful synthesis") {
        Some(Action { name: "Careful Synthesis", wait_ms: 2500 })
    } else if chars_eq_str(key, "delicate synthesis") {
        Some(Action { name: "Delicate Synthesis", wait_ms: 2500 })
    } else if chars_eq_str(key, "final appraisal") {
        Some(Action { name: "Final Appraisal", wait_ms: 1500 })
    } else if chars_eq_str(key, "focused synthesis") {
        Some(Action { name: "Focused Synthesis", wait_ms: 2500 })
    } else if chars_eq_str(key, "focused touch") {
        Some(Action { name: "Focused Touch", wait_ms: 2500 })
    } else if chars_eq_str(key, "great strides") {
        Some(Action { name: "Great Strides", wait_ms: 1500 })
    } else if chars_eq_str(key, "groundwork") {
        Some(Action { name: "Groundwork", wait_ms: 2500 })
    } else if chars_eq_str(key, "hasty touch") {
        Some(Action { name: "Hasty Touch", wait_ms: 2500 })
    } else if chars_eq_str(key, "heart and soul") {
        Some(Action { name: "Heart and Soul", wait_ms: 2500 })
    } else if chars_eq_str(key, "inner quiet") {
        // The 1500 ms wait here is chosen like that of the other buffs.
        Some(Action { name: "Inner Quiet", wait_ms: 1500 })
    } else if chars_eq_str(key, "innovation") {
        Some(Action { name: "Innovation", wait_ms: 1500 })
    } else if chars_eq_str(key, "intensive synthesis") {
        Some(Action { name: "Intensive Synthesis", wait_ms: 2500 })
    } else if chars_eq_str(key, "manipulation") {
        Some(Action { name: "Manipulation", wait_ms: 1500 })
    } else if chars_eq_str(key, "master's mend") {
        Some(Action { name: "Master's Mend", wait_ms: 2500 })
    } else if chars_eq_str(key, "muscle memory") {
        Some(Action { name: "Muscle Memory", wait_ms: 2500 })
    } else if chars_eq_str(key, "observe") {
        Some(Action { name: "Observe", wait_ms: 2500 })
    } else if chars_eq_str(key, "precise touch") {
        Some(Action { name: "Precise Touch", wait_ms: 2500 })
    } else if chars_eq_str(key, "preparatory touch") {
        Some(Action { name: "Preparatory Touch", wait_ms: 2500 })
    } else if chars_eq_str(key, "prudent synthesis") {
        Some(Action { name: "Prudent Synthesis", wait_ms: 2500 })
    } else if chars_eq_str(key, "prudent touch") {
        Some(Action { name: "Prudent Touch", wait_ms: 2500 })
    } else if chars_eq_str(key, "rapid synthesis") {
        Some(Action { name: "Rapid Synthesis", wait_ms: 2500 })
    } else if chars_eq_str(key, "reflect") {
        Some(Action { name: "Reflect", wait_ms: 2500 })
    } else if chars_eq_str(key, "standard touch") {
        Some(Action { name: "Standard Touch", wait_ms: 2500 })
    } else if chars_eq_str(key, "trained eye") {
        Some(Action { name: "Trained Eye", wait_ms: 2500 })
    } else if chars_eq_str(key, "trained finesse") {
        Some(Action { name: "Trained Finesse", wait_ms: 2500 })
    } else if chars_eq_str(key, "tricks of the trade") {
        Some(Action { name: "Tricks of the Trade", wait_ms: 2500 })
    } else if chars_eq_str(key, "veneration") {
        Some(Action { name: "Veneration", wait_ms: 1500 })
    } else if chars_eq_str(key, "waste not") {
        Some(Action { name: "Waste Not", wait_ms: 1500 })
    } else if chars_eq_str(key, "waste not ii") {
        Some(Action { name: "Waste Not II", wait_ms: 1500 })
    } else {
        None
    }
}

} // verus!
