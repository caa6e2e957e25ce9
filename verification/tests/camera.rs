use icosa_demo::camera::{Action, Controller, Event, Key, Position};

#[test]
fn initial_state() {
    let c = Controller::new();
    assert_eq!(c.position, Position { x: 0, y: 5, z: 25 });
    assert!(!c.exit);
}

#[test]
fn each_key_moves_one_step_on_its_axis() {
    let cases = [
        (Key::PageUp, (0, 1, 0)),
        (Key::PageDown, (0, -1, 0)),
        (Key::Left, (-1, 0, 0)),
        (Key::Right, (1, 0, 0)),
        (Key::Up, (0, 0, -1)),
        (Key::Down, (0, 0, 1)),
    ];
    for (key, (dx, dy, dz)) in cases {
        let mut c = Controller::new();
        let a = c.handle_event(Event::KeyPressed(key));
        assert_eq!(a, Action::Nothing);
        assert_eq!(c.position, Position { x: dx, y: 5 + dy, z: 25 + dz });
        assert!(!c.exit);
    }
}

#[test]
fn steps_accumulate() {
    let mut c = Controller::new();
    c.handle_event(Event::KeyPressed(Key::Right));
    c.handle_event(Event::KeyPressed(Key::Right));
    c.handle_event(Event::KeyPressed(Key::Up));
    assert_eq!(c.position, Position { x: 2, y: 5, z: 24 });
}

#[test]
fn escape_requests_exit_without_moving() {
    let mut c = Controller::new();
    let a = c.handle_event(Event::KeyPressed(Key::Escape));
    assert_eq!(a, Action::Nothing);
    assert!(c.exit);
    assert_eq!(c.position, Position { x: 0, y: 5, z: 25 });
}

#[test]
fn close_event_requests_exit() {
    let mut c = Controller::new();
    c.handle_event(Event::Closed);
    assert!(c.exit);
    assert_eq!(c.position, Position { x: 0, y: 5, z: 25 });
}

#[test]
fn exit_latches() {
    let mut c = Controller::new();
    c.handle_event(Event::Closed);
    c.handle_event(Event::KeyPressed(Key::Left));
    assert!(c.exit);
    assert_eq!(c.position, Position { x: -1, y: 5, z: 25 });
}

#[test]
fn space_asks_for_greeting_and_nothing_else() {
    let mut c = Controller::new();
    let a = c.handle_event(Event::KeyPressed(Key::Space));
    assert_eq!(a, Action::PrintHello);
    assert_eq!(c.position, Position { x: 0, y: 5, z: 25 });
    assert!(!c.exit);
}

#[test]
fn unmapped_key_and_other_events_do_nothing() {
    let mut c = Controller::new();
    let a = c.handle_event(Event::KeyPressed(Key::Other));
    assert_eq!(a, Action::Nothing);
    let b = c.handle_event(Event::Other);
    assert_eq!(b, Action::Nothing);
    assert_eq!(c.position, Position { x: 0, y: 5, z: 25 });
    assert!(!c.exit);
}
