use input_recorder::differ::diff;
use input_recorder::event::{EventKind, InputEvent};
use input_recorder::geometry::{Position, Rectangle};
use input_recorder::sample::RawInputSample;

fn sample(x: i32, y: i32, buttons: &[bool], keys: &[&str]) -> RawInputSample {
    RawInputSample {
        position: Position { x, y },
        buttons: buttons.to_vec(),
        keys: keys.iter().map(|k| k.to_string()).collect(),
    }
}

fn count(events: &[InputEvent], kind: EventKind) -> usize {
    events.iter().filter(|e| e.kind() == kind).count()
}

#[test]
fn identical_samples_give_no_event() {
    let previous = sample(40, -7, &[false, true, false], &["A", "LShift"]);
    let current = previous.clone();
    assert_eq!(diff(&previous, &current, None), Vec::<InputEvent>::new());
    let bounds = Rectangle { x: 0, y: 0, width: 100, height: 100 };
    assert_eq!(diff(&previous, &current, Some(bounds)), Vec::<InputEvent>::new());
}

#[test]
fn position_change_alone_gives_one_move() {
    let previous = sample(0, 0, &[false, true], &["A"]);
    let current = sample(1, 1, &[false, true], &["A"]);
    let events = diff(&previous, &current, None);
    assert_eq!(
        events,
        vec![InputEvent::MouseMoved {
            from: Position { x: 0, y: 0 },
            to: Position { x: 1, y: 1 },
            inside_window: None,
        }]
    );
    assert_eq!(count(&events, EventKind::MouseMoved), 1);
    assert_eq!(count(&events, EventKind::MouseClicked), 0);
    assert_eq!(count(&events, EventKind::KeyPressed), 0);
}

#[test]
fn move_is_noted_inside_on_every_edge_of_the_window() {
    let bounds = Rectangle { x: 10, y: 20, width: 30, height: 40 };
    let previous = sample(0, 0, &[], &[]);
    let corners: [(i32, i32); 4] = [(10, 20), (40, 20), (10, 60), (40, 60)];
    for (x, y) in corners {
        let events = diff(&previous, &sample(x, y, &[], &[]), Some(bounds));
        assert_eq!(
            events,
            vec![InputEvent::MouseMoved {
                from: Position { x: 0, y: 0 },
                to: Position { x, y },
                inside_window: Some(true),
            }]
        );
    }
}

#[test]
fn move_is_noted_outside_just_past_each_edge() {
    let bounds = Rectangle { x: 10, y: 20, width: 30, height: 40 };
    let previous = sample(0, 0, &[], &[]);
    let outside: [(i32, i32); 4] = [(9, 30), (41, 30), (20, 19), (20, 61)];
    for (x, y) in outside {
        let events = diff(&previous, &sample(x, y, &[], &[]), Some(bounds));
        assert_eq!(
            events,
            vec![InputEvent::MouseMoved {
                from: Position { x: 0, y: 0 },
                to: Position { x, y },
                inside_window: Some(false),
            }]
        );
    }
}

#[test]
fn move_without_window_carries_no_note() {
    let events = diff(&sample(5, 5, &[], &[]), &sample(6, 5, &[], &[]), None);
    assert_eq!(events.len(), 1);
    assert_eq!(events[0].description(), "Mouse moved from (5, 5) to (6, 5)");
}

#[test]
fn press_gives_one_click_with_every_level() {
    let previous = sample(0, 0, &[false, false, false], &[]);
    let current = sample(0, 0, &[false, true, false], &[]);
    let events = diff(&previous, &current, None);
    assert_eq!(events, vec![InputEvent::MouseClicked { buttons: vec![false, true, false] }]);
    assert_eq!(count(&events, EventKind::MouseClicked), 1);
}

#[test]
fn second_button_joining_gives_a_click_listing_both() {
    let previous = sample(0, 0, &[false, true, false], &[]);
    let current = sample(0, 0, &[false, true, true], &[]);
    let events = diff(&previous, &current, None);
    assert_eq!(events, vec![InputEvent::MouseClicked { buttons: vec![false, true, true] }]);
}

#[test]
fn release_of_one_of_two_buttons_gives_a_click_of_the_rest() {
    let previous = sample(0, 0, &[false, true, true], &[]);
    let current = sample(0, 0, &[false, false, true], &[]);
    let events = diff(&previous, &current, None);
    assert_eq!(events, vec![InputEvent::MouseClicked { buttons: vec![false, false, true] }]);
}

#[test]
fn release_of_the_last_button_gives_nothing() {
    let previous = sample(0, 0, &[false, true, false], &[]);
    let current = sample(0, 0, &[false, false, false], &[]);
    assert_eq!(diff(&previous, &current, None), Vec::<InputEvent>::new());
    let none_reported = sample(0, 0, &[], &[]);
    assert_eq!(diff(&previous, &none_reported, None), Vec::<InputEvent>::new());
}

#[test]
fn held_button_gives_nothing() {
    let previous = sample(3, 3, &[false, true], &[]);
    let current = sample(3, 3, &[false, true], &[]);
    assert_eq!(diff(&previous, &current, None), Vec::<InputEvent>::new());
}

#[test]
fn trailing_released_levels_do_not_count_as_a_change() {
    let previous = sample(0, 0, &[false, true], &[]);
    let current = sample(0, 0, &[false, true, false, false], &[]);
    assert!(current.same_buttons(&previous));
    assert_eq!(diff(&previous, &current, None), Vec::<InputEvent>::new());
}

#[test]
fn new_keys_give_one_press_each_in_sample_order() {
    let previous = sample(0, 0, &[], &["LShift"]);
    let current = sample(0, 0, &[], &["B", "LShift", "A"]);
    let events = diff(&previous, &current, None);
    assert_eq!(
        events,
        vec![
            InputEvent::KeyPressed { key: "B".to_string() },
            InputEvent::KeyPressed { key: "A".to_string() },
        ]
    );
    assert_eq!(count(&events, EventKind::KeyPressed), 2);
}

#[test]
fn held_and_released_keys_give_nothing() {
    let previous = sample(0, 0, &[], &["A", "B"]);
    let held = sample(0, 0, &[], &["A", "B"]);
    assert_eq!(diff(&previous, &held, None), Vec::<InputEvent>::new());
    let released = sample(0, 0, &[], &["A"]);
    assert_eq!(diff(&previous, &released, None), Vec::<InputEvent>::new());
    let all_released = sample(0, 0, &[], &[]);
    assert_eq!(diff(&previous, &all_released, None), Vec::<InputEvent>::new());
}

#[test]
fn key_press_count_equals_new_key_count() {
    let previous = sample(0, 0, &[], &["A", "C", "E"]);
    let current = sample(0, 0, &[], &["A", "B", "C", "D", "F"]);
    let events = diff(&previous, &current, None);
    let expected: usize =
        current.keys.iter().filter(|k| !previous.keys.contains(k)).count();
    assert_eq!(expected, 3);
    assert_eq!(count(&events, EventKind::KeyPressed), expected);
}

#[test]
fn one_tick_orders_move_then_click_then_keys() {
    let previous = sample(0, 0, &[false, false], &["A"]);
    let current = sample(7, -2, &[false, true], &["A", "Space", "Enter"]);
    let bounds = Rectangle { x: 0, y: 0, width: 5, height: 5 };
    let events = diff(&previous, &current, Some(bounds));
    assert_eq!(
        events,
        vec![
            InputEvent::MouseMoved {
                from: Position { x: 0, y: 0 },
                to: Position { x: 7, y: -2 },
                inside_window: Some(false),
            },
            InputEvent::MouseClicked { buttons: vec![false, true] },
            InputEvent::KeyPressed { key: "Space".to_string() },
            InputEvent::KeyPressed { key: "Enter".to_string() },
        ]
    );
    let kinds: Vec<EventKind> = events.iter().map(|e| e.kind()).collect();
    assert_eq!(
        kinds,
        vec![
            EventKind::MouseMoved,
            EventKind::MouseClicked,
            EventKind::KeyPressed,
            EventKind::KeyPressed,
        ]
    );
}

#[test]
fn sample_queries_agree_with_levels_and_keys() {
    let s = sample(0, 0, &[false, false, true], &["A", "Tab"]);
    assert!(s.any_button_pressed());
    assert!(!sample(0, 0, &[false, false], &[]).any_button_pressed());
    assert!(!sample(0, 0, &[], &[]).any_button_pressed());
    assert!(s.holds_key(&"Tab".to_string()));
    assert!(!s.holds_key(&"Ta".to_string()));
    assert!(!s.same_buttons(&sample(0, 0, &[false, true, false], &[])));
    assert!(s.same_buttons(&sample(9, 9, &[false, false, true], &["Z"])));
}

#[test]
fn no_input_sample_holds_nothing() {
    let s = RawInputSample::no_input(Position { x: 12, y: 34 });
    assert_eq!(s, sample(12, 34, &[], &[]));
}
