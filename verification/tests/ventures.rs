use xivtools::input::{Input, Key};
use xivtools::process::UnknownField;
use xivtools::ventures::retainer::{city_label, RetainerEntry};
use xivtools::ventures::{
    finish_round, next_retainer, reassign_venture, update_display_order, venture_done, Reassignment, REASSIGN_TRIES,
};
use xivtools::xiv::citystate::CityState;
use xivtools::xiv::remote::retainer::{Retainer, RetainerTable};
use xivtools::xiv::ui::UiPlan;

fn retainer(level: u8, venture_id: u32, complete: u32) -> Retainer {
    Retainer {
        __unknown_1: UnknownField::default(),
        name: [0u8; 32],
        available: level > 0,
        classjob: 1,
        level,
        item_count: 0,
        gil: 0,
        home_city: 1,
        market_count: 0,
        __unknown_2: UnknownField::default(),
        market_complete: 0,
        venture_id,
        venture_complete: complete,
        __unknown_3: UnknownField::default(),
    }
}

fn empty() -> Retainer {
    retainer(0, 0, 0)
}

#[test]
fn next_retainer_is_the_first_done() {
    let mut rs = [empty(); 10];
    rs[0] = retainer(10, 0, 0);
    rs[2] = retainer(50, 3, 900);
    rs[5] = retainer(50, 4, 500);
    rs[7] = retainer(50, 5, 700);
    let next = next_retainer(&rs);
    assert_eq!(next.venture_complete, 500);
    assert_eq!(next.venture_id, 4);
    // With nobody on a venture the fold stays on the first retainer.
    let idle = [retainer(10, 0, 0); 10];
    assert_eq!(next_retainer(&idle).venture_id, 0);
}

#[test]
fn display_positions_follow_the_bell() {
    let mut rs = [empty(); 10];
    rs[0] = retainer(10, 0, 0);
    rs[1] = retainer(10, 0, 0);
    let t = RetainerTable { retainers: rs, display_order: [1, 0, 0, 0, 0, 0, 0, 0, 0, 0], ready: 0, count: 2 };
    let mut order = vec![0usize; 10];
    update_display_order(&mut order, &t);
    assert_eq!(order[0], 1);
    assert_eq!(order[1], 0);
}

#[test]
fn venture_completion_uses_32_bit_time() {
    assert!(venture_done(100, 100));
    assert!(!venture_done(101, 100));
    assert!(venture_done(5, (1i64 << 32) + 5));
}

fn key(k: Key) -> Vec<Input> {
    vec![Input::KeyDown(k), Input::KeyUp(k), Input::Wait(50)]
}

#[test]
fn reassignment_attempts() {
    let mut r = Reassignment::new(false);
    assert!(r.wants_attempt());
    let mut p = UiPlan::new(false);
    r.attempt(&mut p, 1);
    assert!(r.menu_open);
    let mut only_reassign = UiPlan::new(false);
    reassign_venture(&mut only_reassign, 1);
    assert!(p.inputs.len() > only_reassign.inputs.len());
    assert_eq!(p.inputs[p.inputs.len() - only_reassign.inputs.len()..], only_reassign.inputs[..]);
    // Unchanged completion time: the menu is taken as closed and a try used.
    r.record(1000, 1000);
    assert!(!r.menu_open);
    assert_eq!(r.retries, REASSIGN_TRIES - 1);
    r.record(2000, 1000);
    assert!(r.updated);
    assert!(!r.wants_attempt());
    let mut q = UiPlan::new(false);
    let mut open = Reassignment::new(true);
    open.attempt(&mut q, 1);
    assert_eq!(q.inputs, only_reassign.inputs);
    let mut tries = Reassignment::new(true);
    let mut n = 0;
    while tries.wants_attempt() {
        tries.record(7, 7);
        n += 1;
    }
    assert_eq!(n, 5);
}

#[test]
fn reassign_plan_starts_by_moving_down() {
    let mut p = UiPlan::new(false);
    reassign_venture(&mut p, 2);
    let mut start = key(Key::Down);
    start.extend(key(Key::Down));
    start.push(Input::Wait(1000));
    assert_eq!(p.inputs[..start.len()], start[..]);
    let mut f = UiPlan::new(false);
    finish_round(&mut f, true);
    assert_eq!(f.inputs, key(Key::Cancel));
    let mut g = UiPlan::new(false);
    finish_round(&mut g, false);
    assert!(g.inputs.is_empty());
}

#[test]
fn retainer_entry_and_city_labels() {
    let mut name = [0u8; 32];
    name[..4].copy_from_slice(b"Momo");
    let e = RetainerEntry {
        __unknown_1: UnknownField::default(),
        name,
        available: true,
        classjob: 2,
        level: 60,
        item_count: 0,
        gil: 0,
        home_city: 3,
        market_count: 0,
        __unknown_2: UnknownField::default(),
        market_complete: 0,
        venture_id: 0,
        venture_complete: 0,
        __unknown_3: UnknownField::default(),
    };
    assert_eq!(e.name(), "Momo");
    assert_eq!(city_label(CityState::from(3u8)), "Uldah");
    assert_eq!(city_label(CityState::Unknown(0x1f)), "Unknown(1f)");
}
