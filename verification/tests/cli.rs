use xivtools::cli::craft::{craft_items, send_action};
use xivtools::cli::garland::{Item, Material};
use xivtools::cli::macros::{action_from_groups, parse_buffer, try_parse_buffer, Action, LineError};
use xivtools::cli::task::Task;
use xivtools::cli::ui::Plan;
use xivtools::cli::xiv_ui::{
    bring_craft_window, craft_item, reset_action_keys, reset_ui, send_action as post_action,
    toggle_collectable_status,
};
use xivtools::input::{Input, Key};

fn key(k: Key) -> Vec<Input> {
    vec![Input::KeyDown(k), Input::KeyUp(k), Input::Wait(150)]
}

fn typed(s: &str) -> Vec<Input> {
    let mut v = Vec::new();
    for c in s.chars() {
        v.push(Input::Char(c));
        v.push(Input::Wait(20));
    }
    v
}

#[test]
fn action_through_chat() {
    let mut p = Plan::new();
    send_action(&mut p, "Innovation");
    let mut want = key(Key::Enter);
    want.extend(typed("/ac \"Innovation\"\n"));
    want.push(Input::Wait(50));
    want.extend(key(Key::Enter));
    assert_eq!(p.inputs, want);
}

#[test]
fn crafting_a_task() {
    let task = Task {
        item: Item { name: "Loquat Cider".to_string(), materials: vec![Material { name: "Loquat".to_string(), count: 2 }] },
        count: 2,
        index: 1,
        actions: vec![Action { name: "Basic Synthesis".to_string(), wait: 2 }],
        gearset: 1,
        collectable: false,
    };
    let mut p = Plan::new();
    craft_items(&mut p, &[task]);
    // Starts by clearing the windows: ten escapes.
    for i in 0..10 {
        assert_eq!(p.inputs[3 * i..3 * i + 3], key(Key::Escape)[..]);
    }
    // Each craft presses confirm four times then waits two seconds.
    let synth = key(Key::Confirm).repeat(4);
    let starts: Vec<usize> = (0..p.inputs.len() - synth.len())
        .filter(|&i| p.inputs[i..i + synth.len()] == synth[..] && p.inputs[i + synth.len()] == Input::Wait(2000))
        .collect();
    assert_eq!(starts.len(), 2);
    // A two-second action is followed by 1.7 s.
    assert!(p.inputs.contains(&Input::Wait(1700)));
}

#[test]
fn macro_buffers() {
    let actions = parse_buffer("  /ac Innovation\n/ac \"Great Strides\" <wait.2>  \n");
    assert_eq!(
        actions,
        vec![
            Action { name: "Innovation".to_string(), wait: 3 },
            Action { name: "Great Strides".to_string(), wait: 2 }
        ]
    );
    assert!(try_parse_buffer("/ac Innovation\nnot a command").is_none());
    assert_eq!(action_from_groups("x", None), Err(LineError::Unparsable("x".to_string())));
    assert_eq!(
        action_from_groups("x", Some(("Veneration", Some("12")))),
        Ok(Action { name: "Veneration".to_string(), wait: 12 })
    );
    assert_eq!(action_from_groups("x", Some(("Veneration", Some("z")))), Err(LineError::BadWait("z".to_string())));
}

fn wkey(k: Key) -> Vec<Input> {
    vec![Input::KeyDown(k), Input::KeyUp(k), Input::Wait(250)]
}

fn chars(s: &str) -> Vec<Input> {
    let mut v: Vec<Input> = s.chars().map(Input::Char).collect();
    v.push(Input::Wait(100));
    v
}

#[test]
fn window_messages() {
    let mut p = Plan::new();
    post_action(&mut p, "Reclaim", 3);
    let mut want = wkey(Key::Enter);
    want.extend(chars("/ac \""));
    want.extend(chars("Reclaim"));
    want.extend(chars("\""));
    want.push(Input::Wait(250));
    want.extend(wkey(Key::Enter));
    want.push(Input::Wait(3000));
    assert_eq!(p.inputs, want);

    let mut t = Plan::new();
    toggle_collectable_status(&mut t);
    assert_eq!(*t.inputs.last().unwrap(), Input::Wait(2000));

    let mut r = Plan::new();
    reset_action_keys(&mut r);
    assert_eq!(
        r.inputs,
        vec![Input::KeyUp(Key::Confirm), Input::KeyUp(Key::Enter), Input::KeyUp(Key::CraftingLog), Input::Wait(250)]
    );

    let mut u = Plan::new();
    reset_ui(&mut u);
    assert_eq!(u.inputs.len(), 5 * 3 + 1);
    assert_eq!(u.inputs[15], Input::Wait(250));

    let mut b = Plan::new();
    bring_craft_window(&mut b, "Ale", 2);
    let mut want = wkey(Key::CraftingLog);
    for _ in 0..8 {
        want.extend(wkey(Key::Backward));
    }
    want.extend(wkey(Key::Confirm));
    want.extend(chars("Ale"));
    want.extend(wkey(Key::Enter));
    want.push(Input::Wait(500));
    for _ in 0..2 {
        want.extend(wkey(Key::Down));
        want.push(Input::Wait(50));
    }
    want.extend(wkey(Key::Confirm));
    assert_eq!(b.inputs, want);

    let mut c = Plan::new();
    craft_item(&mut c, &vec![Action { name: "Observe".to_string(), wait: 1 }], true);
    let mut want = wkey(Key::Confirm);
    want.extend(wkey(Key::Confirm));
    want.push(Input::Wait(2000));
    let mut a = Plan::new();
    post_action(&mut a, "Observe", 1);
    want.extend(a.inputs);
    want.push(Input::Wait(1000));
    want.extend(wkey(Key::Confirm));
    want.extend(wkey(Key::Confirm));
    want.push(Input::Wait(1000));
    want.push(Input::Wait(2000));
    assert_eq!(c.inputs, want);
}

#[test]
fn cli_messages() {
    assert_eq!(Action { name: "Reclaim".to_string(), wait: 2 }.describe(), "Action ( action: Reclaim, wait: 2)");
    assert_eq!(LineError::Unparsable("x".to_string()).message(), "Unable to parse line: x");
    assert_eq!(LineError::BadWait("q".to_string()).message(), "failed to parse as number: q");
}
