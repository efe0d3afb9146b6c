use input_automation::config::{update_macro_config, MacroConfig};
use input_automation::input::{drag_mouse, InputEvent, Point, Step};
use input_automation::macro_runner::{
    execute_macro_part1, execute_macro_part2, run_macro, MacroPart, VK_6, VK_Q, VK_S, VK_TAB,
};

fn inject(e: InputEvent) -> Step {
    Step::Inject(e)
}

fn tap(vk: u16) -> Vec<Step> {
    vec![inject(InputEvent::KeyDown(vk)), Step::Wait(30), inject(InputEvent::KeyUp(vk))]
}

fn drag(from: Point, to: Point) -> Vec<Step> {
    let mut script = Vec::new();
    drag_mouse(&mut script, from, to);
    script
}

fn config(dodge: &str, sp: (i32, i32), qu: (i32, i32), delay: u64) -> MacroConfig {
    let mut c = MacroConfig::new();
    update_macro_config(
        &mut c,
        "F7".to_string(),
        "F8".to_string(),
        dodge.to_string(),
        sp.0,
        sp.1,
        qu.0,
        qu.1,
        delay,
    );
    c
}

#[test]
fn fixed_key_codes() {
    assert_eq!((VK_TAB, VK_Q, VK_S, VK_6), (0x09, 0x51, 0x53, 0x36));
}

#[test]
fn part1_script_in_full() {
    let c = config("AltLeft", (100, 200), (300, 400), 50);
    let mut script = Vec::new();
    assert!(execute_macro_part1(&c, &mut script));
    let mut expected = Vec::new();
    expected.extend(tap(0x09));
    expected.push(Step::Wait(50));
    expected.extend(drag(Point { x: 100, y: 200 }, Point { x: 300, y: 400 }));
    expected.push(Step::Wait(50));
    expected.extend(tap(0x09));
    expected.push(Step::Wait(50));
    expected.push(inject(InputEvent::KeyDown(0x51)));
    expected.push(Step::Wait(300));
    expected.extend(tap(0x36));
    expected.push(Step::Wait(50));
    expected.push(inject(InputEvent::KeyUp(0x51)));
    assert_eq!(script, expected);
}

#[test]
fn part1_uses_the_configured_delay_between_stages_only() {
    let c = config("AltLeft", (1, 1), (2, 2), 777);
    let mut script = Vec::new();
    assert!(execute_macro_part1(&c, &mut script));
    let delays = script.iter().filter(|s| **s == Step::Wait(777)).count();
    assert_eq!(delays, 3);
    assert!(script.contains(&Step::Wait(300)));
    assert!(script.contains(&Step::Wait(50)));
}

#[test]
fn part2_script_in_full() {
    let c = config("Space", (100, 200), (300, 400), 80);
    let mut script = Vec::new();
    assert!(execute_macro_part2(&c, &mut script));
    let mut expected = Vec::new();
    expected.push(inject(InputEvent::KeyDown(0x53)));
    expected.push(Step::Wait(50));
    expected.extend(tap(0x20));
    expected.push(Step::Wait(80));
    expected.extend(tap(0x09));
    expected.push(Step::Wait(80));
    expected.extend(drag(Point { x: 300, y: 400 }, Point { x: 100, y: 200 }));
    expected.push(Step::Wait(80));
    expected.extend(tap(0x09));
    expected.push(Step::Wait(80));
    expected.push(inject(InputEvent::KeyUp(0x53)));
    assert_eq!(script, expected);
}

#[test]
fn part2_with_mouse4_dodges_with_the_first_side_button() {
    let c = config("Mouse4", (100, 200), (300, 400), 50);
    let mut script = Vec::new();
    assert!(execute_macro_part2(&c, &mut script));
    assert_eq!(script[0], inject(InputEvent::KeyDown(0x53)));
    assert_eq!(script[1], Step::Wait(50));
    assert_eq!(script[2], inject(InputEvent::SideDown(1)));
    assert_eq!(script[3], Step::Wait(30));
    assert_eq!(script[4], inject(InputEvent::SideUp(1)));
    assert_eq!(script[5], Step::Wait(50));
    let keys: Vec<u16> = script
        .iter()
        .filter_map(|s| match s {
            Step::Inject(InputEvent::KeyDown(vk)) => Some(*vk),
            _ => None,
        })
        .collect();
    assert_eq!(keys, vec![0x53, 0x09, 0x09]);
}

#[test]
fn part2_with_an_unknown_dodge_key_skips_the_dodge() {
    let c = config("Nothing", (100, 200), (300, 400), 50);
    let mut script = Vec::new();
    assert!(execute_macro_part2(&c, &mut script));
    assert_eq!(script[0], inject(InputEvent::KeyDown(0x53)));
    assert_eq!(script[1], Step::Wait(50));
    assert_eq!(script[2], Step::Wait(50));
    assert_eq!(script[3], inject(InputEvent::KeyDown(0x09)));
}

#[test]
fn macro_with_an_unset_position_injects_nothing() {
    for (sp, qu) in [((0, 0), (0, 0)), ((0, 0), (5, 5)), ((5, 5), (0, 0))] {
        let c = config("AltLeft", sp, qu, 50);
        let mut script = vec![Step::Wait(1)];
        assert!(!execute_macro_part1(&c, &mut script));
        assert_eq!(script, vec![Step::Wait(1)]);
        assert!(!execute_macro_part2(&c, &mut script));
        assert_eq!(script, vec![Step::Wait(1)]);
    }
}

#[test]
fn position_with_one_zero_coordinate_counts_as_set() {
    let c = config("AltLeft", (0, 7), (7, 0), 50);
    let mut script = Vec::new();
    assert!(execute_macro_part1(&c, &mut script));
    assert_eq!(script.len(), 3 + 1 + 36 + 1 + 3 + 1 + 2 + 3 + 2);
}

#[test]
fn aborted_macro_only_releases_the_flag() {
    let c = MacroConfig::new();
    for part in [MacroPart::Part1, MacroPart::Part2] {
        let (task, ran) = run_macro(part, &c);
        assert!(!ran);
        assert_eq!(task, vec![Step::ReleaseMacroFlag]);
    }
}

#[test]
fn macro_task_releases_the_flag_once_as_its_last_step() {
    let c = config("Mouse5", (10, 20), (30, 40), 50);
    for part in [MacroPart::Part1, MacroPart::Part2] {
        let (task, ran) = run_macro(part, &c);
        assert!(ran);
        assert_eq!(task.last(), Some(&Step::ReleaseMacroFlag));
        let releases = task.iter().filter(|s| **s == Step::ReleaseMacroFlag).count();
        assert_eq!(releases, 1);
        let mut script = Vec::new();
        match part {
            MacroPart::Part1 => execute_macro_part1(&c, &mut script),
            MacroPart::Part2 => execute_macro_part2(&c, &mut script),
        };
        assert_eq!(&task[..task.len() - 1], &script[..]);
    }
}
