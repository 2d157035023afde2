use xivtools::input::{Input, Key};
use xivtools::process::UnknownField;
use xivtools::xiv::citystate::CityState;
use xivtools::xiv::remote::craft::{Action, Condition, CraftingStruct, State};
use xivtools::xiv::remote::retainer::Retainer;
use xivtools::xiv::ui::{clear_window, send_action, send_key_times, target_nearest_npc, UiPlan};
use xivtools::xiv::{is_game_title, job_name, Venture, JOB_CNT};

fn retainer(name: &[u8], level: u8, available: bool, venture_id: u32, complete: u32) -> Retainer {
    let mut n = [0u8; 32];
    n[..name.len()].copy_from_slice(name);
    Retainer {
        __unknown_1: UnknownField::default(),
        name: n,
        available,
        classjob: 1,
        level,
        item_count: 0,
        gil: 0,
        home_city: 2,
        market_count: 0,
        __unknown_2: UnknownField::default(),
        market_complete: 0,
        venture_id,
        venture_complete: complete,
        __unknown_3: UnknownField::default(),
    }
}

#[test]
fn jobs_in_game_order() {
    let names: Vec<&str> = (0..JOB_CNT).map(job_name).collect();
    assert_eq!(names, vec!["CRP", "BSM", "ARM", "GSM", "LTW", "WVR", "ALC", "CUL"]);
}

#[test]
fn city_codes_and_names() {
    assert_eq!(CityState::from(1u8), CityState::Limsa);
    assert_eq!(CityState::from(0xAu8), CityState::Crystarium);
    assert_eq!(CityState::from(9u8), CityState::Unknown(9));
    assert_eq!(CityState::from(7u8).to_display_string(), "Kugane");
    assert_eq!(CityState::from(200u8).to_display_string(), "Unknown[200]");
}

#[test]
fn crafting_codes_shown_by_name() {
    assert_eq!(Condition(Condition::EXCELLENT).to_display_string(), "Excellent");
    assert_eq!(State(State::READY).known_name(), Some("Ready"));
    assert_eq!(State(0x77).known_name(), None);
    assert_eq!(Action(100001).known_name(), Some("Basic Synthesis"));
    let c = CraftingStruct::default();
    assert_eq!(c.state, State(State::UNINITIALIZED));
    assert_eq!(c.progress, 0);
}

#[test]
fn retainer_flags_and_name() {
    let r = retainer(b"Alphinaud", 50, true, 12, 1000);
    assert_eq!(r.name(), "Alphinaud");
    assert!(r.is_valid());
    assert!(r.employed());
    assert_eq!(r.venture(), Venture { id: 12 });
    let idle = retainer(b"Alisaie", 50, true, 0, 0);
    assert!(idle.is_valid());
    assert!(!idle.employed());
    let gone = retainer(b"", 0, false, 0, 0);
    assert!(!gone.is_valid());
    assert_eq!(gone.name(), "");
    let bad = retainer(&[0x41, 0xff, 0x42], 1, true, 0, 0);
    assert_eq!(bad.name(), "A\u{fffd}B");
}

#[test]
fn game_window_title() {
    assert!(is_game_title("FINAL FANTASY XIV"));
    assert!(is_game_title("Window - FINAL FANTASY XIV (DX11)"));
    assert!(!is_game_title("FINAL FANTASY X"));
    assert!(!is_game_title(""));
}

fn key(k: Key, slow: bool) -> Vec<Input> {
    vec![Input::KeyDown(k), Input::KeyUp(k), Input::Wait(if slow { 150 } else { 50 })]
}

#[test]
fn ui_plans() {
    let mut p = UiPlan::new(true);
    send_key_times(&mut p, Key::Down, 2);
    let mut want = key(Key::Down, true);
    want.extend(key(Key::Down, true));
    assert_eq!(p.inputs, want);

    let mut q = UiPlan::new(false);
    target_nearest_npc(&mut q);
    let mut want = key(Key::Enter, false);
    for c in "/tnpc".chars() {
        want.push(Input::Char(c));
        want.push(Input::Wait(50));
    }
    want.extend(key(Key::Enter, false));
    assert_eq!(q.inputs, want);

    let mut r = UiPlan::new(false);
    send_action(&mut r, "go", None);
    assert_eq!(
        r.inputs,
        vec![
            Input::Char('g'),
            Input::Wait(50),
            Input::Char('o'),
            Input::Wait(50),
            Input::Wait(500),
            Input::KeyDown(Key::Enter),
            Input::KeyUp(Key::Enter),
            Input::Wait(50)
        ]
    );

    let mut c = UiPlan::new(false);
    clear_window(&mut c);
    assert_eq!(c.inputs.len(), 3 * (32 + 1 + 32 + 1 + 4 + 13));
    assert_eq!(c.inputs[..3], key(Key::Backspace, false)[..]);
    assert_eq!(c.inputs[c.inputs.len() - 3..], key(Key::Cancel, false)[..]);
}

#[test]
fn unknown_codes_shown_in_hex() {
    assert_eq!(State(0x77).to_display_string(), "UnknownState(0x77)");
    assert_eq!(Condition(0x10).to_display_string(), "UnknownCondition(0x10)");
}
