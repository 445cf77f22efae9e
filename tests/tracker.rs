use mouse_tracker::buttons::{buttons_from_one_based, contains_pressed, press_edge, same_buttons};
use mouse_tracker::inspect::{element_size_from_rect, ElementInspector, NoInspector};
use mouse_tracker::state::MouseState;
use mouse_tracker::tracker::{MouseTracker, Sampler};
use std::cell::RefCell;

struct Recorder {
    answer: Option<(i32, i32)>,
    calls: RefCell<Vec<(i32, i32)>>,
}

impl Recorder {
    fn new(answer: Option<(i32, i32)>) -> Recorder {
        Recorder { answer, calls: RefCell::new(Vec::new()) }
    }
}

impl ElementInspector for Recorder {
    fn element_size_at(&self, x: i32, y: i32) -> Option<(i32, i32)> {
        self.calls.borrow_mut().push((x, y));
        self.answer
    }
}

fn b(l: bool, r: bool, m: bool) -> Vec<bool> {
    vec![l, r, m]
}

#[test]
fn initial_state_is_origin_released_no_size() {
    let mut t = MouseTracker::new();
    let s = t.get_mouse_state();
    assert_eq!(s.position, (0, 0));
    assert_eq!(s.buttons, vec![false, false, false]);
    assert_eq!(s.element_size, None);
}

#[test]
fn edge_fires_once_per_press() {
    let mut t = MouseTracker::new();
    let mut sampler = Sampler::new();
    let insp = Recorder::new(Some((1, 1)));
    let samples = [
        b(false, false, false),
        b(false, false, false),
        b(true, false, false),
        b(true, false, false),
        b(false, false, false),
        b(true, false, false),
    ];
    let mut fired = Vec::new();
    for (i, s) in samples.iter().enumerate() {
        let rep = t.tick(&mut sampler, (0, 0), s.clone(), &insp);
        if let Some(rep) = rep {
            if rep.inspected {
                fired.push(i);
            }
        }
    }
    assert_eq!(fired, vec![2, 5]);
    assert_eq!(insp.calls.borrow().len(), 2);
}

#[test]
fn update_then_read_returns_size() {
    let mut t = MouseTracker::new();
    t.update_element_size(50, 80);
    assert_eq!(t.get_mouse_state().element_size, Some((50, 80)));
}

#[test]
fn absent_answer_keeps_prior_size() {
    let mut t = MouseTracker::new();
    let mut sampler = Sampler::new();
    t.update_element_size(10, 20);
    let rep = t.tick(&mut sampler, (5, 5), b(true, false, false), &NoInspector).unwrap();
    assert!(rep.inspected);
    assert_eq!(rep.found, None);
    let s = t.get_mouse_state();
    assert_eq!(s.element_size, Some((10, 20)));
    assert_eq!(s.position, (5, 5));
}

#[test]
fn absent_answer_on_fresh_state_stays_absent() {
    let mut t = MouseTracker::new();
    let mut sampler = Sampler::new();
    t.tick(&mut sampler, (3, 4), b(false, true, false), &NoInspector);
    assert_eq!(t.get_mouse_state().element_size, None);
}

#[test]
fn click_scenario_publishes_position_buttons_and_size() {
    let mut t = MouseTracker::new();
    let mut sampler = Sampler::new();
    let insp = Recorder::new(Some((200, 40)));
    let first = t.tick(&mut sampler, (100, 100), b(false, false, false), &insp).unwrap();
    assert!(!first.inspected);
    let second = t.tick(&mut sampler, (100, 100), b(true, false, false), &insp).unwrap();
    assert!(second.inspected);
    assert_eq!(*insp.calls.borrow(), vec![(100, 100)]);
    let s = t.get_mouse_state();
    assert_eq!(s.position, (100, 100));
    assert_eq!(s.buttons, vec![true, false, false]);
    assert_eq!(s.element_size, Some((200, 40)));
}

#[test]
fn repeated_samples_write_nothing() {
    let mut t = MouseTracker::new();
    let mut sampler = Sampler::new();
    let insp = Recorder::new(Some((7, 7)));
    let samples = [
        ((1, 2), b(false, false, false)),
        ((1, 2), b(false, false, false)),
        ((-30, 8), b(false, false, true)),
        ((-30, 8), b(false, false, true)),
        ((-30, 8), b(false, false, true)),
    ];
    let mut writes = 0;
    for (p, s) in samples.iter() {
        if t.tick(&mut sampler, *p, s.clone(), &insp).is_some() {
            writes += 1;
        }
    }
    assert_eq!(writes, 2);
    assert_eq!(insp.calls.borrow().len(), 1);
    let s = t.get_mouse_state();
    assert_eq!(s.position, (-30, 8));
    assert_eq!(s.buttons, vec![false, false, true]);
    assert_eq!(s.element_size, Some((7, 7)));
}

#[test]
fn first_sample_can_be_an_edge() {
    let mut t = MouseTracker::new();
    let mut sampler = Sampler::new();
    let insp = Recorder::new(Some((9, 3)));
    let rep = t.tick(&mut sampler, (0, 0), b(true, false, false), &insp).unwrap();
    assert!(rep.inspected);
    assert_eq!(rep.found, Some((9, 3)));
    assert_eq!(t.get_mouse_state().element_size, Some((9, 3)));
}

#[test]
fn move_while_held_does_not_inspect() {
    let mut t = MouseTracker::new();
    let mut sampler = Sampler::new();
    let insp = Recorder::new(Some((1, 2)));
    t.tick(&mut sampler, (0, 0), b(true, false, false), &insp);
    let rep = t.tick(&mut sampler, (4, 4), b(true, true, false), &insp).unwrap();
    assert!(!rep.inspected);
    assert_eq!(rep.found, None);
    assert_eq!(insp.calls.borrow().len(), 1);
}

#[test]
fn later_size_update_overrides_click_size() {
    let mut t = MouseTracker::new();
    let mut sampler = Sampler::new();
    t.tick(&mut sampler, (0, 0), b(true, false, false), &Recorder::new(Some((200, 40))));
    t.update_element_size(-1, 0);
    assert_eq!(t.get_mouse_state().element_size, Some((-1, 0)));
}

#[test]
fn rect_size_exact_values() {
    assert_eq!(element_size_from_rect(10, 20, 210, 60), Some((200, 40)));
    assert_eq!(element_size_from_rect(-100, -50, 0, 0), Some((100, 50)));
}

#[test]
fn rect_size_degenerate_is_negative() {
    assert_eq!(element_size_from_rect(50, 50, 40, 45), Some((-10, -5)));
}

#[test]
fn rect_size_out_of_range_is_absent() {
    assert_eq!(element_size_from_rect(i32::MIN, 0, i32::MAX, 10), None);
    assert_eq!(element_size_from_rect(0, i32::MAX, 10, i32::MIN), None);
}

#[test]
fn one_based_buttons_map_to_left_right_middle() {
    let raw = vec![false, true, false, true, true, false];
    assert_eq!(buttons_from_one_based(&raw), vec![true, false, true]);
    assert_eq!(buttons_from_one_based(&vec![false, false, true]), vec![false, true, false]);
    assert_eq!(buttons_from_one_based(&vec![]), vec![false, false, false]);
}

#[test]
fn button_helpers() {
    assert!(!contains_pressed(&vec![]));
    assert!(contains_pressed(&b(false, false, true)));
    assert!(press_edge(&b(false, false, false), &b(false, true, false)));
    assert!(!press_edge(&b(true, false, false), &b(true, true, false)));
    assert!(!press_edge(&b(false, false, false), &b(false, false, false)));
    assert!(same_buttons(&b(true, false, true), &b(true, false, true)));
    assert!(!same_buttons(&b(true, false, true), &vec![true, false]));
}

#[test]
fn snapshot_is_independent_copy() {
    let mut s = MouseState::initial();
    let c = s.snapshot();
    s.set_element_size(3, 4);
    s.buttons[0] = true;
    assert_eq!(c.element_size, None);
    assert_eq!(c.buttons, vec![false, false, false]);
    assert_eq!(s.element_size, Some((3, 4)));
}

#[test]
fn no_inspector_finds_nothing() {
    assert_eq!(NoInspector.element_size_at(0, 0), None);
    assert_eq!(NoInspector.element_size_at(-5, 1200), None);
}

#[test]
fn repeated_sample_leaves_state_as_is() {
    let mut t = MouseTracker::new();
    let mut sampler = Sampler::new();
    let insp = Recorder::new(Some((4, 4)));
    t.tick(&mut sampler, (2, 2), b(true, false, false), &insp);
    let before = t.get_mouse_state();
    assert!(t.tick(&mut sampler, (2, 2), b(true, false, false), &insp).is_none());
    let after = t.get_mouse_state();
    assert_eq!(before.position, after.position);
    assert_eq!(before.buttons, after.buttons);
    assert_eq!(before.element_size, after.element_size);
    assert_eq!(insp.calls.borrow().len(), 1);
}

#[test]
fn repeat_check_matches_previous_sample() {
    let mut t = MouseTracker::new();
    let mut sampler = Sampler::new();
    assert!(sampler.is_repeat((0, 0), &b(false, false, false)));
    assert!(!sampler.is_repeat((0, 1), &b(false, false, false)));
    t.tick(&mut sampler, (0, 1), b(false, true, false), &NoInspector);
    assert!(sampler.is_repeat((0, 1), &b(false, true, false)));
    assert!(!sampler.is_repeat((0, 1), &b(false, false, false)));
}
